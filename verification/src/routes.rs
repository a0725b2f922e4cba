use vstd::prelude::*;

use crate::error::AppError;
use crate::types::{
    normalize_uuid_spec, parse_player, parse_size, parse_size_spec,
    username_valid, PlayerInput, SkinProfile,
};

verus! {

/// A validated `/helm/{player}` request.
#[derive(Debug, Clone, PartialEq, Eq)]
pub struct HelmRequest {
    pub player: PlayerInput,
    pub size: u32,
}

/// Validates a `/helm/{player}?size=` request: the size is checked first, then
/// the player.
pub fn helm_request(player: &str, size: Option<&str>) -> (r: Result<HelmRequest, AppError>)
    ensures
        ({
            let size_spec = parse_size_spec(
                match size {
                    None => None,
                    Some(s) => Some(s@),
                },
            );
            &&& size_spec matches Err(e) ==> r == Err::<HelmRequest, AppError>(e)
            &&& size_spec matches Ok(n) ==> match normalize_uuid_spec(player@) {
                Some(u) => r matches Ok(req) && req.size == n && (req.player matches PlayerInput::Uuid(
                    s,
                ) && s@ == u),
                None => if username_valid(player@) {
                    r matches Ok(req) && req.size == n && (req.player matches PlayerInput::Username(
                        s,
                    ) && s@ == player@)
                } else {
                    r == Err::<HelmRequest, AppError>(AppError::InvalidPlayer)
                },
            }
        }),
{
    let size = match parse_size(size) {
        Ok(size) => size,
        Err(e) => return Err(e),
    };
    match parse_player(player) {
        Ok(player) => Ok(HelmRequest { player, size }),
        Err(e) => Err(e),
    }
}

/// The cape URL of a profile; a profile without one has no cape to serve.
pub fn required_cape_url(profile: &SkinProfile) -> (r: Result<String, AppError>)
    ensures
        match profile.cape_url {
            Some(u) => r matches Ok(s) && s@ == u@,
            None => r == Err::<String, AppError>(AppError::ProfileHasNoCape),
        },
{
    match &profile.cape_url {
        Some(url) => Ok(url.clone()),
        None => Err(AppError::ProfileHasNoCape),
    }
}

/// The `x-skinhelm-model` and `x-skinhelm-cape` header values of a skin response.
pub fn skin_response_headers(slim: bool, has_cape: bool) -> (h: (&'static str, &'static str))
    ensures
        h.0@ == (if slim {
            "slim"@
        } else {
            "classic"@
        }),
        h.1@ == (if has_cape {
            "true"@
        } else {
            "false"@
        }),
{
    let model = if slim {
        "slim"
    } else {
        "classic"
    };
    let cape = if has_cape {
        "true"
    } else {
        "false"
    };
    (model, cape)
}

} // verus!
