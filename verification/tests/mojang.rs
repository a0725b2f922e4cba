use skinhelm::error::AppError;
use skinhelm::mojang::{
    is_success_status, profile_textures_from_response, profile_url, skin_profile_from_textures,
    texture_download_outcome, textures_property, username_from_response, username_url,
    valid_texture_url,
};
use skinhelm::types::{
    MojangProfileResponse, MojangProperty, SkinMetadata, SkinTexture, Textures, TexturesPayload,
    UsernameProfileResponse,
};

fn texture(url: &str, model: Option<&str>) -> SkinTexture {
    SkinTexture {
        url: url.to_owned(),
        metadata: Some(SkinMetadata { model: model.map(str::to_owned) }),
    }
}

#[test]
fn texture_urls_must_be_http() {
    assert_eq!(valid_texture_url("https://x/y".to_owned()).as_deref(), Some("https://x/y"));
    assert_eq!(valid_texture_url("http://x".to_owned()).as_deref(), Some("http://x"));
    assert_eq!(valid_texture_url("ftp://x".to_owned()), None);
    assert_eq!(valid_texture_url("http:/".to_owned()), None);
}

#[test]
fn builds_mojang_urls() {
    assert_eq!(username_url("Steve"), "https://api.mojang.com/users/profiles/minecraft/Steve");
    assert_eq!(
        profile_url("abc"),
        "https://sessionserver.mojang.com/session/minecraft/profile/abc?unsigned=false"
    );
}

#[test]
fn interprets_username_answers() {
    let profile = UsernameProfileResponse { id: "BC881E0292164F6EA80F7B9DF0CCF9E9".to_owned() };
    assert_eq!(
        username_from_response(200, Some(profile)).unwrap(),
        "bc881e0292164f6ea80f7b9df0ccf9e9"
    );
    let bad = UsernameProfileResponse { id: "nope".to_owned() };
    assert_eq!(username_from_response(200, Some(bad)).unwrap_err(), AppError::MalformedUpstream);
    assert_eq!(username_from_response(200, None).unwrap_err(), AppError::MalformedUpstream);
    assert_eq!(username_from_response(204, None).unwrap_err(), AppError::UsernameNotFound);
    assert_eq!(username_from_response(404, None).unwrap_err(), AppError::UsernameNotFound);
    assert_eq!(username_from_response(500, None).unwrap_err(), AppError::MojangRequest);
}

#[test]
fn decodes_first_textures_property() {
    let profile = MojangProfileResponse {
        properties: vec![
            MojangProperty { name: "other".to_owned(), value: "!!".to_owned() },
            MojangProperty { name: "textures".to_owned(), value: "eyJhIjoxfQ==".to_owned() },
            MojangProperty { name: "textures".to_owned(), value: "!!".to_owned() },
        ],
    };
    assert_eq!(textures_property(&profile).unwrap(), b"{\"a\":1}".to_vec());
    let broken = MojangProfileResponse {
        properties: vec![MojangProperty { name: "textures".to_owned(), value: "!!".to_owned() }],
    };
    assert_eq!(textures_property(&broken).unwrap_err(), AppError::TextureDecode);
    let empty = MojangProfileResponse { properties: vec![] };
    assert_eq!(textures_property(&empty).unwrap_err(), AppError::ProfileHasNoSkin);
    assert_eq!(
        profile_textures_from_response(503, Some(&profile)).unwrap_err(),
        AppError::MojangRequest
    );
    assert_eq!(
        profile_textures_from_response(200, None).unwrap_err(),
        AppError::MalformedUpstream
    );
    assert_eq!(profile_textures_from_response(200, Some(&profile)).unwrap(), b"{\"a\":1}".to_vec());
}

#[test]
fn builds_skin_profiles() {
    let payload = TexturesPayload {
        textures: Textures {
            skin: Some(texture("https://textures/skin", Some("slim"))),
            cape: Some(texture("https://textures/cape", None)),
        },
    };
    let profile = skin_profile_from_textures(Some(payload)).unwrap();
    assert_eq!(profile.url, "https://textures/skin");
    assert!(profile.slim);
    assert_eq!(profile.cape_url.as_deref(), Some("https://textures/cape"));

    let classic = TexturesPayload {
        textures: Textures {
            skin: Some(texture("http://textures/skin", Some("default"))),
            cape: Some(texture("file://cape", None)),
        },
    };
    let profile = skin_profile_from_textures(Some(classic)).unwrap();
    assert!(!profile.slim);
    assert_eq!(profile.cape_url, None);

    let no_skin = TexturesPayload { textures: Textures { skin: None, cape: None } };
    assert_eq!(skin_profile_from_textures(Some(no_skin)).unwrap_err(), AppError::ProfileHasNoSkin);
    let bad_url = TexturesPayload {
        textures: Textures { skin: Some(texture("skin.png", None)), cape: None },
    };
    assert_eq!(skin_profile_from_textures(Some(bad_url)).unwrap_err(), AppError::MalformedUpstream);
    assert_eq!(skin_profile_from_textures(None).unwrap_err(), AppError::TextureJson);
}

#[test]
fn interprets_texture_downloads() {
    assert!(is_success_status(204));
    assert!(!is_success_status(302));
    assert_eq!(texture_download_outcome(200, Some(vec![7]), AppError::SkinDownload).unwrap(), vec![7]);
    assert_eq!(
        texture_download_outcome(404, Some(vec![7]), AppError::CapeDownload).unwrap_err(),
        AppError::CapeDownload
    );
    assert_eq!(
        texture_download_outcome(200, None, AppError::SkinDownload).unwrap_err(),
        AppError::SkinDownload
    );
}
