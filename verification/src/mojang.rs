use vstd::prelude::*;
use vstd::string::*;

use crate::codec::{
    base64_decode, base64_standard_decode, base64_standard_encode, lemma_base64_injective,
};
use crate::error::AppError;
use crate::text::{starts_with, str_eq};
use crate::types::{
    normalize_uuid, normalize_uuid_spec, MojangProfileResponse, MojangProperty, SkinProfile,
    SkinTexture, TexturesPayload, UsernameProfileResponse,
};

verus! {

broadcast use vstd::string::group_string_axioms;

pub open spec fn has_prefix(s: Seq<char>, prefix: Seq<char>) -> bool {
    prefix.len() <= s.len() && s.take(prefix.len() as int) == prefix
}

/// A texture URL is accepted when it is an `http://` or `https://` URL.
pub open spec fn texture_url_ok(url: Seq<char>) -> bool {
    has_prefix(url, "http://"@) || has_prefix(url, "https://"@)
}

/// `reqwest::StatusCode::is_success`: a 2xx status.
pub open spec fn status_is_success(status: u16) -> bool {
    200 <= status <= 299
}

/// The outcome of a username lookup, from the HTTP status and the parsed body
/// (`None` when the body of a 200 answer is not the expected JSON).
pub open spec fn username_outcome(status: u16, profile_id: Option<Seq<char>>) -> Result<
    Seq<char>,
    AppError,
> {
    if status == 200 {
        match profile_id {
            None => Err(AppError::MalformedUpstream),
            Some(id) => match normalize_uuid_spec(id) {
                Some(uuid) => Ok(uuid),
                None => Err(AppError::MalformedUpstream),
            },
        }
    } else if status == 204 || status == 404 {
        Err(AppError::UsernameNotFound)
    } else {
        Err(AppError::MojangRequest)
    }
}

/// The value of the first property named `textures`.
pub open spec fn textures_value(props: Seq<MojangProperty>) -> Option<Seq<char>>
    decreases props.len(),
{
    if props.len() == 0 {
        None
    } else if props[0].name@ == "textures"@ {
        Some(props[0].value@)
    } else {
        textures_value(props.drop_first())
    }
}

/// The decoded `textures` property of a profile.
pub open spec fn textures_bytes_outcome(props: Seq<MojangProperty>) -> Result<Seq<u8>, AppError> {
    match textures_value(props) {
        None => Err(AppError::ProfileHasNoSkin),
        Some(value) => match base64_standard_decode(value) {
            None => Err(AppError::TextureDecode),
            Some(bytes) => Ok(bytes),
        },
    }
}

/// The skin's metadata names the slim model.
pub open spec fn texture_is_slim(skin: SkinTexture) -> bool {
    skin.metadata matches Some(m) && m.model matches Some(model) && model@ == "slim"@
}

/// The accepted cape URL of a textures payload, if any.
pub open spec fn cape_url_of(textures: crate::types::Textures) -> Option<Seq<char>> {
    match textures.cape {
        Some(cape) => if texture_url_ok(cape.url@) {
            Some(cape.url@)
        } else {
            None
        },
        None => None,
    }
}

/// The skin profile that a decoded textures payload gives (`None` when the
/// payload was not the expected JSON).
pub open spec fn skin_profile_ok(payload: Option<TexturesPayload>, r: Result<SkinProfile, AppError>) -> bool {
    match payload {
        None => r == Err::<SkinProfile, AppError>(AppError::TextureJson),
        Some(p) => match p.textures.skin {
            None => r == Err::<SkinProfile, AppError>(AppError::ProfileHasNoSkin),
            Some(skin) => if texture_url_ok(skin.url@) {
                r matches Ok(profile) && profile.url@ == skin.url@ && profile.slim
                    == texture_is_slim(skin) && match cape_url_of(p.textures) {
                    None => profile.cape_url is None,
                    Some(c) => profile.cape_url matches Some(u) && u@ == c,
                }
            } else {
                r == Err::<SkinProfile, AppError>(AppError::MalformedUpstream)
            },
        },
    }
}

/// A profile built from a textures payload keeps the payload's cape URL
/// exactly when that URL starts with `http://` or `https://`, the test the
/// skin URL must pass too; with no cape in the payload it has none.
pub proof fn lemma_cape_url_kept_iff_http(p: TexturesPayload, r: Result<SkinProfile, AppError>)
    requires
        skin_profile_ok(Some(p), r),
    ensures
        r matches Ok(profile) ==> match p.textures.cape {
            None => profile.cape_url is None,
            Some(c) => {
                &&& (profile.cape_url matches Some(u) && u@ == c.url@) <==> ((c.url@.len() >= 7
                    && c.url@.take(7) == seq!['h', 't', 't', 'p', ':', '/', '/']) || (c.url@.len()
                    >= 8 && c.url@.take(8) == seq!['h', 't', 't', 'p', 's', ':', '/', '/']))
                &&& profile.cape_url is None || (profile.cape_url matches Some(u) && u@ == c.url@)
            },
        },
        r matches Ok(profile) ==> p.textures.skin matches Some(s) && profile.url@ == s.url@ && ((
        s.url@.len() >= 7 && s.url@.take(7) == seq!['h', 't', 't', 'p', ':', '/', '/']) || (
        s.url@.len() >= 8 && s.url@.take(8) == seq!['h', 't', 't', 'p', 's', ':', '/', '/'])),
{
    reveal_strlit("http://");
    reveal_strlit("https://");
    assert("http://"@ =~= seq!['h', 't', 't', 'p', ':', '/', '/']);
    assert("https://"@ =~= seq!['h', 't', 't', 'p', 's', ':', '/', '/']);
}

pub open spec fn username_url_spec(username: Seq<char>) -> Seq<char> {
    "https://api.mojang.com/users/profiles/minecraft/"@ + username
}

pub open spec fn profile_url_spec(uuid: Seq<char>) -> Seq<char> {
    "https://sessionserver.mojang.com/session/minecraft/profile/"@ + uuid + "?unsigned=false"@
}

/// Keeps a texture URL only when it is an `http://` or `https://` URL.
pub fn valid_texture_url(url: String) -> (r: Option<String>)
    ensures
        texture_url_ok(url@) ==> (r matches Some(u) && u@ == url@),
        !texture_url_ok(url@) ==> r is None,
{
    if starts_with(url.as_str(), "http://") || starts_with(url.as_str(), "https://") {
        Some(url)
    } else {
        None
    }
}

/// Whether an HTTP status is a success (2xx).
pub fn is_success_status(status: u16) -> (b: bool)
    ensures
        b == status_is_success(status),
{
    200 <= status && status <= 299
}

/// The Mojang endpoint that resolves a username.
pub fn username_url(username: &str) -> (u: String)
    ensures
        u@ == username_url_spec(username@),
{
    let mut url = String::from_str("https://api.mojang.com/users/profiles/minecraft/");
    url.append(username);
    url
}

/// The Mojang endpoint that serves a UUID's session profile, with signatures.
pub fn profile_url(uuid: &str) -> (u: String)
    ensures
        u@ == profile_url_spec(uuid@),
{
    let mut url = String::from_str("https://sessionserver.mojang.com/session/minecraft/profile/");
    url.append(uuid);
    url.append("?unsigned=false");
    url
}

/// Interprets the answer to a username lookup: 200 gives the normalized UUID,
/// 204 and 404 mean the name is unknown, any other status is an upstream failure.
pub fn username_from_response(status: u16, profile: Option<UsernameProfileResponse>) -> (r: Result<
    String,
    AppError,
>)
    ensures
        match username_outcome(
            status,
            match profile {
                Some(p) => Some(p.id@),
                None => None,
            },
        ) {
            Ok(uuid) => r matches Ok(s) && s@ == uuid,
            Err(e) => r == Err::<String, AppError>(e),
        },
{
    if status == 200 {
        match profile {
            None => Err(AppError::MalformedUpstream),
            Some(p) => match normalize_uuid(p.id.as_str()) {
                Some(uuid) => Ok(uuid),
                None => Err(AppError::MalformedUpstream),
            },
        }
    } else if status == 204 || status == 404 {
        Err(AppError::UsernameNotFound)
    } else {
        Err(AppError::MojangRequest)
    }
}

/// Finds the `textures` property of a session profile and decodes its base64 value.
pub fn textures_property(profile: &MojangProfileResponse) -> (r: Result<Vec<u8>, AppError>)
    ensures
        match textures_bytes_outcome(profile.properties@) {
            Ok(bytes) => r matches Ok(b) && b@ == bytes,
            Err(e) => r == Err::<Vec<u8>, AppError>(e),
        },
{
    let props = &profile.properties;
    let mut i: usize = 0;
    assert(props@.subrange(0, props@.len() as int) == props@);
    while i < props.len()
        invariant
            props@ == profile.properties@,
            i <= props@.len(),
            textures_value(props@) == textures_value(props@.subrange(i as int, props@.len() as int)),
        decreases props@.len() - i,
    {
        let ghost rest = props@.subrange(i as int, props@.len() as int);
        assert(rest[0] == props@[i as int]);
        assert(rest.drop_first() == props@.subrange(i + 1, props@.len() as int));
        if str_eq(props[i].name.as_str(), "textures") {
            assert(textures_value(rest) == Some(props@[i as int].value@));
            let value = props[i].value.as_str();
            assert(value@ == props@[i as int].value@);
            let decoded = base64_decode(value);
            proof {
                if decoded is Some {
                    let w = choose|w: Seq<u8>| base64_standard_encode(w) == value@;
                    lemma_base64_injective(decoded.unwrap()@, w);
                }
            }
            return match decoded {
                Some(bytes) => Ok(bytes),
                None => Err(AppError::TextureDecode),
            };
        }
        i = i + 1;
    }
    assert(props@.subrange(i as int, props@.len() as int).len() == 0);
    Err(AppError::ProfileHasNoSkin)
}

/// Interprets the answer to a session profile request up to the decoded
/// `textures` property: a non-2xx status is an upstream failure and a body
/// that is not the expected JSON (`None`) is malformed.
pub fn profile_textures_from_response(status: u16, profile: Option<&MojangProfileResponse>) -> (r:
    Result<Vec<u8>, AppError>)
    ensures
        !status_is_success(status) ==> r == Err::<Vec<u8>, AppError>(AppError::MojangRequest),
        status_is_success(status) && profile is None ==> r == Err::<Vec<u8>, AppError>(
            AppError::MalformedUpstream,
        ),
        status_is_success(status) && profile is Some ==> match textures_bytes_outcome(
            profile.unwrap().properties@,
        ) {
            Ok(bytes) => r matches Ok(b) && b@ == bytes,
            Err(e) => r == Err::<Vec<u8>, AppError>(e),
        },
{
    if !is_success_status(status) {
        return Err(AppError::MojangRequest);
    }
    match profile {
        None => Err(AppError::MalformedUpstream),
        Some(p) => textures_property(p),
    }
}

/// Builds the skin profile from the decoded textures JSON (`None` when the
/// decoded bytes are not the expected JSON).
pub fn skin_profile_from_textures(payload: Option<TexturesPayload>) -> (r: Result<
    SkinProfile,
    AppError,
>)
    ensures
        skin_profile_ok(payload, r),
{
    let payload = match payload {
        None => return Err(AppError::TextureJson),
        Some(p) => p,
    };
    let cape_url = match payload.textures.cape {
        Some(cape) => valid_texture_url(cape.url),
        None => None,
    };
    let skin = match payload.textures.skin {
        None => return Err(AppError::ProfileHasNoSkin),
        Some(skin) => skin,
    };
    let slim = match &skin.metadata {
        Some(metadata) => match &metadata.model {
            Some(model) => str_eq(model.as_str(), "slim"),
            None => false,
        },
        None => false,
    };
    match valid_texture_url(skin.url) {
        Some(url) => Ok(SkinProfile { url, slim, cape_url }),
        None => Err(AppError::MalformedUpstream),
    }
}

/// Interprets a texture download: a 2xx answer whose body was read gives the
/// bytes, anything else the given error.
pub fn texture_download_outcome(status: u16, body: Option<Vec<u8>>, error: AppError) -> (r: Result<
    Vec<u8>,
    AppError,
>)
    ensures
        status_is_success(status) && body is Some ==> (r matches Ok(b) && b@ == body.unwrap()@),
        !(status_is_success(status) && body is Some) ==> r == Err::<Vec<u8>, AppError>(error),
{
    if !is_success_status(status) {
        return Err(error);
    }
    match body {
        Some(bytes) => Ok(bytes),
        None => Err(error),
    }
}

} // verus!
