use image::ImageEncoder;
use skinhelm::error::{AppError, ViewerError};
use skinhelm::routes::{helm_request, required_cape_url, skin_response_headers};
use skinhelm::skin::{check_texture_data, ModelVariant, SkinFormat};
use skinhelm::types::{PlayerInput, SkinProfile};
use skinhelm::viewer::{
    cape_upload, model_variant, part_label, skin_upload, skinview3d_uses_polygon_offset,
    BodyPart, DebugMode,
};

#[test]
fn debug_modes_from_query_values() {
    assert_eq!(DebugMode::from_query_value("head"), DebugMode::SolidHead);
    assert_eq!(DebugMode::from_query_value("solid-head"), DebugMode::SolidHead);
    assert_eq!(DebugMode::from_query_value("head-textured"), DebugMode::HeadTextured);
    assert_eq!(DebugMode::from_query_value("head-overlay"), DebugMode::HeadOverlay);
    assert_eq!(DebugMode::from_query_value("base-only"), DebugMode::BaseOnly);
    assert_eq!(DebugMode::from_query_value("full-no-overlays"), DebugMode::FullNoOverlays);
    assert_eq!(DebugMode::from_query_value("full-overlays"), DebugMode::FullOverlays);
    assert_eq!(DebugMode::from_query_value("unlit"), DebugMode::Unlit);
    assert_eq!(DebugMode::from_query_value("Unlit"), DebugMode::Disabled);
    assert_eq!(DebugMode::Disabled.status_label(), "");
    assert_eq!(DebugMode::Unlit.status_label(), "Debug: full model unlit");
    assert_eq!(DebugMode::HeadOverlay.status_label(), "Debug: textured base head + hat layer");
}

#[test]
fn part_labels_and_models() {
    assert_eq!(part_label(BodyPart::Head, true), "hat");
    assert_eq!(part_label(BodyPart::LeftLeg, true), "left_pants");
    assert_eq!(part_label(BodyPart::Body, false), "body");
    assert_eq!(model_variant(true), ModelVariant::Slim);
    assert_eq!(model_variant(false), ModelVariant::Classic);
    assert!(skinview3d_uses_polygon_offset(BodyPart::RightArm));
    assert!(!skinview3d_uses_polygon_offset(BodyPart::Head));
}

#[test]
fn helm_requests_check_size_before_player() {
    assert_eq!(helm_request("bad name", Some("1")).unwrap_err(), AppError::InvalidSize);
    assert_eq!(helm_request("bad name", None).unwrap_err(), AppError::InvalidPlayer);
    let request = helm_request("Steve", Some("100")).unwrap();
    assert_eq!(request.size, 104);
    assert_eq!(request.player, PlayerInput::Username("Steve".to_owned()));
}

#[test]
fn viewer_headers_and_cape_urls() {
    assert_eq!(skin_response_headers(true, false), ("slim", "false"));
    assert_eq!(skin_response_headers(false, true), ("classic", "true"));
    let profile = SkinProfile { url: "https://s".to_owned(), slim: false, cape_url: None };
    assert_eq!(required_cape_url(&profile).unwrap_err(), AppError::ProfileHasNoCape);
    let with_cape = SkinProfile { cape_url: Some("https://c".to_owned()), ..profile };
    assert_eq!(required_cape_url(&with_cape).unwrap(), "https://c");
}

fn encode_png(width: u32, height: u32, rgba: &[u8]) -> Vec<u8> {
    let mut bytes = Vec::new();
    image::codecs::png::PngEncoder::new(&mut bytes)
        .write_image(rgba, width, height, image::ExtendedColorType::Rgba8)
        .expect("test image encodes");
    bytes
}

#[test]
fn skin_upload_uses_requested_model_and_reports_status() {
    let rgba: Vec<u8> = (0..64 * 32 * 4).map(|i| (i % 251) as u8).collect();
    let png = encode_png(64, 32, &rgba);
    let (skin, message) = skin_upload(&png, true).expect("legacy skin uploads");
    assert_eq!(skin.width, 64);
    assert_eq!(skin.height, 32);
    assert_eq!(skin.format, SkinFormat::Legacy64x32);
    assert_eq!(skin.model, ModelVariant::Slim);
    assert_eq!(skin.rgba, rgba);
    assert_eq!(message, "Loaded skin: 64x32 (slim)");

    let modern = encode_png(64, 64, &vec![255; 64 * 64 * 4]);
    let (skin, message) = skin_upload(&modern, false).expect("modern skin uploads");
    assert_eq!(skin.model, ModelVariant::Classic);
    assert_eq!(message, "Loaded skin: 64x64 (classic)");
}

#[test]
fn skin_upload_rejects_bad_input() {
    assert!(matches!(skin_upload(b"not a png", false), Err(ViewerError::InvalidPng)));
    let wrong = encode_png(32, 32, &vec![0; 32 * 32 * 4]);
    assert!(matches!(
        skin_upload(&wrong, false),
        Err(ViewerError::UnsupportedSkinDimensions(32, 32))
    ));
}

#[test]
fn cape_upload_reports_status_and_errors() {
    let rgba = vec![9; 64 * 32 * 4];
    let (cape, message) = cape_upload(&encode_png(64, 32, &rgba)).expect("cape uploads");
    assert_eq!((cape.width, cape.height), (64, 32));
    assert_eq!(cape.rgba, rgba);
    assert_eq!(message, "Loaded cape: 64x32");
    assert!(matches!(cape_upload(b"nope"), Err(ViewerError::InvalidCapePng)));
    assert!(matches!(
        cape_upload(&encode_png(10, 10, &vec![0; 400])),
        Err(ViewerError::UnsupportedCapeDimensions(10, 10))
    ));
}

#[test]
fn texture_data_length_must_match() {
    assert!(check_texture_data(64, 64, 64 * 64 * 4).is_ok());
    assert!(matches!(
        check_texture_data(64, 64, 100),
        Err(ViewerError::InvalidTextureData { width: 64, height: 64, actual_len: 100 })
    ));
    assert!(matches!(
        check_texture_data(70_000, 70_000, 0),
        Err(ViewerError::InvalidTextureData { width: 70_000, height: 70_000, actual_len: 0 })
    ));
}
