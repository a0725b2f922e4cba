use image::ImageEncoder;
use skinhelm::cache::AppCache;
use skinhelm::error::AppError;
use skinhelm::helm::{
    helm_advance, helm_begin, lookup_player_uuid, record_player_uuid, HelmAction, HelmEvent,
    UuidLookup,
};
use skinhelm::routes::HelmRequest;
use skinhelm::types::PlayerInput;

const UUID: &str = "bc881e0292164f6ea80f7b9df0ccf9e9";
const URL: &str = "https://textures.minecraft.net/texture/abc";

fn skin_png() -> Vec<u8> {
    let rgba = vec![200; 64 * 64 * 4];
    let mut bytes = Vec::new();
    image::codecs::png::PngEncoder::new(&mut bytes)
        .write_image(&rgba, 64, 64, image::ExtendedColorType::Rgba8)
        .expect("test skin encodes");
    bytes
}

fn request(player: PlayerInput, size: u32) -> HelmRequest {
    HelmRequest { player, size }
}

#[test]
fn first_request_fetches_then_second_is_answered_from_cache() {
    let mut cache = AppCache::new();
    let (mut flow, action) =
        helm_begin(request(PlayerInput::Username("Steve".to_owned()), 16), &mut cache, 1_000);
    assert_eq!(action, HelmAction::FetchUuid("Steve".to_owned()));
    let action = helm_advance(&mut flow, &mut cache, HelmEvent::UuidFetched(Ok(UUID.to_owned())), 1_100);
    assert_eq!(action, HelmAction::FetchSkinUrl(UUID.to_owned()));
    let action = helm_advance(&mut flow, &mut cache, HelmEvent::SkinUrlFetched(Ok(URL.to_owned())), 1_200);
    assert_eq!(action, HelmAction::DownloadSkin(URL.to_owned()));
    let action = helm_advance(&mut flow, &mut cache, HelmEvent::SkinDownloaded(Ok(skin_png())), 1_300);
    let png = match action {
        HelmAction::Respond(png) => png,
        other => panic!("expected a PNG, got {other:?}"),
    };
    assert_eq!(image::load_from_memory(&png).expect("png decodes").width(), 16);

    let (_, again) =
        helm_begin(request(PlayerInput::Username("STEVE".to_owned()), 16), &mut cache, 2_000);
    assert_eq!(again, HelmAction::Respond(png));
    let (_, other_size) = helm_begin(request(PlayerInput::Uuid(UUID.to_owned()), 32), &mut cache, 2_000);
    assert_eq!(other_size, HelmAction::DownloadSkin(URL.to_owned()));
}

#[test]
fn cached_entries_expire() {
    let mut cache = AppCache::new();
    let (mut flow, _) = helm_begin(request(PlayerInput::Uuid(UUID.to_owned()), 8), &mut cache, 0);
    helm_advance(&mut flow, &mut cache, HelmEvent::SkinUrlFetched(Ok(URL.to_owned())), 0);
    let (_, fresh) = helm_begin(request(PlayerInput::Uuid(UUID.to_owned()), 8), &mut cache, 1_799_999);
    assert_eq!(fresh, HelmAction::DownloadSkin(URL.to_owned()));
    let (_, stale) = helm_begin(request(PlayerInput::Uuid(UUID.to_owned()), 8), &mut cache, 1_800_000);
    assert_eq!(stale, HelmAction::FetchSkinUrl(UUID.to_owned()));
}

#[test]
fn failures_and_unexpected_results_end_the_request() {
    let mut cache = AppCache::new();
    let (mut flow, _) =
        helm_begin(request(PlayerInput::Username("Alex".to_owned()), 8), &mut cache, 0);
    let action = helm_advance(
        &mut flow,
        &mut cache,
        HelmEvent::UuidFetched(Err(AppError::UsernameNotFound)),
        0,
    );
    assert_eq!(action, HelmAction::Fail(AppError::UsernameNotFound));
    let (_, again) = helm_begin(request(PlayerInput::Username("Alex".to_owned()), 8), &mut cache, 1);
    assert_eq!(again, HelmAction::FetchUuid("Alex".to_owned()));

    let (mut flow, _) = helm_begin(request(PlayerInput::Uuid(UUID.to_owned()), 8), &mut cache, 0);
    let action = helm_advance(&mut flow, &mut cache, HelmEvent::SkinDownloaded(Ok(vec![1])), 0);
    assert_eq!(action, HelmAction::Fail(AppError::Internal));

    let (mut flow, _) = helm_begin(request(PlayerInput::Uuid(UUID.to_owned()), 8), &mut cache, 0);
    helm_advance(&mut flow, &mut cache, HelmEvent::SkinUrlFetched(Ok(URL.to_owned())), 0);
    let action = helm_advance(&mut flow, &mut cache, HelmEvent::SkinDownloaded(Ok(b"nope".to_vec())), 0);
    assert_eq!(action, HelmAction::Fail(AppError::InvalidSkinImage));
}

#[test]
fn viewer_players_resolve_through_the_username_cache() {
    let mut cache = AppCache::new();
    assert_eq!(
        lookup_player_uuid(PlayerInput::Uuid(UUID.to_owned()), &mut cache, 0),
        UuidLookup::Known(UUID.to_owned())
    );
    assert_eq!(
        lookup_player_uuid(PlayerInput::Username("Steve".to_owned()), &mut cache, 0),
        UuidLookup::Fetch("Steve".to_owned())
    );
    assert_eq!(
        record_player_uuid("Steve", Ok(UUID.to_owned()), &mut cache, 0),
        Ok(UUID.to_owned())
    );
    assert_eq!(
        lookup_player_uuid(PlayerInput::Username("steve".to_owned()), &mut cache, 5),
        UuidLookup::Known(UUID.to_owned())
    );
    assert_eq!(
        record_player_uuid("Nobody", Err(AppError::MojangRequest), &mut cache, 0),
        Err(AppError::MojangRequest)
    );
    assert_eq!(
        lookup_player_uuid(PlayerInput::Username("Nobody".to_owned()), &mut cache, 1),
        UuidLookup::Fetch("Nobody".to_owned())
    );
}
