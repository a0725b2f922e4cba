use image::ImageEncoder;
use base64::Engine;
use image::{Rgba, RgbaImage};
use skinhelm::error::ViewerError;
use skinhelm::skin::{
    decode_cape_png, decode_png, default_skin, detect_model_variant, fill_overlay_rect, fill_rect,
    render_head_png_data_url, validate_cape_dimensions, validate_dimensions, ModelVariant,
    SkinFormat, SkinImage,
};

fn decode_data_url(data_url: &str) -> RgbaImage {
    let encoded = data_url
        .strip_prefix("data:image/png;base64,")
        .expect("png data url prefix");
    let bytes = base64::engine::general_purpose::STANDARD
        .decode(encoded)
        .expect("base64 decodes");
    image::load_from_memory(&bytes)
        .expect("png decodes")
        .to_rgba8()
}

fn opaque_rgba(width: u32, height: u32) -> Vec<u8> {
    let mut rgba = vec![255; (width * height * 4) as usize];
    for pixel in rgba.chunks_exact_mut(4) {
        pixel[0] = 120;
        pixel[1] = 80;
        pixel[2] = 40;
    }
    rgba
}

fn clear_alpha_rect(rgba: &mut [u8], width: u32, x: u32, y: u32, w: u32, h: u32) {
    for py in y..y + h {
        for px in x..x + w {
            let offset = ((py * width + px) * 4 + 3) as usize;
            rgba[offset] = 0;
        }
    }
}

fn encode_png(width: u32, height: u32, rgba: &[u8]) -> Vec<u8> {
    let mut bytes = Vec::new();
    image::codecs::png::PngEncoder::new(&mut bytes)
        .write_image(rgba, width, height, image::ExtendedColorType::Rgba8)
        .expect("test image encodes");
    bytes
}

#[test]
fn accepts_64x64() {
    assert_eq!(
        validate_dimensions(64, 64).expect("valid dimensions"),
        SkinFormat::Modern64x64
    );
}

#[test]
fn accepts_64x32() {
    assert_eq!(
        validate_dimensions(64, 32).expect("valid dimensions"),
        SkinFormat::Legacy64x32
    );
}

#[test]
fn rejects_unsupported_size() {
    assert!(validate_dimensions(32, 32).is_err());
}

#[test]
fn accepts_official_cape_size() {
    assert!(validate_cape_dimensions(64, 32).is_ok());
}

#[test]
fn rejects_unsupported_cape_size() {
    assert!(validate_cape_dimensions(32, 32).is_err());
}

#[test]
fn detects_slim_skin_from_transparent_classic_arm_columns() {
    let mut rgba = opaque_rgba(64, 64);
    clear_alpha_rect(&mut rgba, 64, 54, 20, 2, 12);
    clear_alpha_rect(&mut rgba, 64, 46, 52, 2, 12);

    assert_eq!(detect_model_variant(64, 64, &rgba), ModelVariant::Slim);
}

#[test]
fn opaque_arm_columns_default_to_classic_skin() {
    let rgba = opaque_rgba(64, 64);

    assert_eq!(detect_model_variant(64, 64, &rgba), ModelVariant::Classic);
}

#[test]
fn legacy_skin_detection_defaults_to_classic() {
    let rgba = opaque_rgba(64, 32);

    assert_eq!(detect_model_variant(64, 32, &rgba), ModelVariant::Classic);
}

#[test]
fn exports_flat_head_png_at_requested_size() {
    let mut skin = default_skin();
    fill_rect(
        &mut skin.rgba,
        skin.width as usize,
        8,
        8,
        8,
        8,
        [10, 20, 30, 255],
    );
    fill_rect(
        &mut skin.rgba,
        skin.width as usize,
        40,
        8,
        8,
        8,
        [0, 0, 0, 0],
    );

    let data_url = render_head_png_data_url(&skin, true, 180).expect("exports head");
    let output = decode_data_url(&data_url);

    assert_eq!(output.dimensions(), (180, 180));
    assert_eq!(*output.get_pixel(0, 0), Rgba([10, 20, 30, 255]));
}

#[test]
fn exported_head_respects_overlay_toggle() {
    let mut skin = default_skin();
    fill_rect(
        &mut skin.rgba,
        skin.width as usize,
        8,
        8,
        8,
        8,
        [100, 0, 0, 255],
    );
    fill_rect(
        &mut skin.rgba,
        skin.width as usize,
        40,
        8,
        8,
        8,
        [0, 100, 0, 255],
    );

    let with_overlay = decode_data_url(
        &render_head_png_data_url(&skin, true, 8).expect("exports with overlay"),
    );
    let without_overlay = decode_data_url(
        &render_head_png_data_url(&skin, false, 8).expect("exports without overlay"),
    );

    assert_eq!(*with_overlay.get_pixel(0, 0), Rgba([0, 100, 0, 255]));
    assert_eq!(*without_overlay.get_pixel(0, 0), Rgba([100, 0, 0, 255]));
}

#[test]
fn default_skin_is_modern_and_painted() {
    let skin = default_skin();
    assert_eq!((skin.width, skin.height), (64, 64));
    assert_eq!(skin.format, SkinFormat::Modern64x64);
    assert_eq!(skin.model, ModelVariant::Classic);
    assert_eq!(skin.rgba.len(), 64 * 64 * 4);
    let at = |x: usize, y: usize| &skin.rgba[(y * 64 + x) * 4..(y * 64 + x) * 4 + 4];
    assert_eq!(at(8, 8), &[60, 40, 35, 255]);
    assert_eq!(at(12, 12), &[210, 150, 105, 255]);
    assert_eq!(at(11, 14), &[120, 45, 45, 255]);
    assert_eq!(at(40, 8), &[30, 30, 30, 180]);
    assert_eq!(at(0, 0), &[0, 0, 0, 0]);
}

#[test]
fn fill_rect_rows_wrap_by_offset() {
    let mut rgba = vec![0u8; 4 * 4 * 4];
    fill_overlay_rect(&mut rgba, 4, 3, 0, 2, 1, [1, 2, 3, 4]);
    assert_eq!(&rgba[12..16], &[1, 2, 3, 4]);
    assert_eq!(&rgba[16..20], &[1, 2, 3, 4]);
    assert_eq!(&rgba[20..24], &[0, 0, 0, 0]);
}

#[test]
fn decodes_skin_and_cape_files() {
    let mut rgba = opaque_rgba(64, 64);
    clear_alpha_rect(&mut rgba, 64, 54, 20, 2, 12);
    clear_alpha_rect(&mut rgba, 64, 46, 52, 2, 12);
    let skin = decode_png(&encode_png(64, 64, &rgba)).expect("skin decodes");
    assert_eq!(skin.format, SkinFormat::Modern64x64);
    assert_eq!(skin.model, ModelVariant::Slim);
    assert_eq!(skin.rgba, rgba);

    let legacy = decode_png(&encode_png(64, 32, &opaque_rgba(64, 32))).expect("legacy decodes");
    assert_eq!(legacy.format, SkinFormat::Legacy64x32);

    assert!(matches!(
        decode_png(&encode_png(32, 32, &opaque_rgba(32, 32))),
        Err(ViewerError::UnsupportedSkinDimensions(32, 32))
    ));
    assert!(matches!(decode_png(b"not a png"), Err(ViewerError::InvalidPng)));

    let cape = decode_cape_png(&encode_png(64, 32, &opaque_rgba(64, 32))).expect("cape decodes");
    assert_eq!((cape.width, cape.height), (64, 32));
    assert!(matches!(
        decode_cape_png(&encode_png(16, 16, &opaque_rgba(16, 16))),
        Err(ViewerError::UnsupportedCapeDimensions(16, 16))
    ));
    assert!(matches!(decode_cape_png(b"nope"), Err(ViewerError::InvalidCapePng)));
}

#[test]
fn head_export_reports_short_and_small_buffers() {
    let short = SkinImage {
        width: 64,
        height: 64,
        format: SkinFormat::Modern64x64,
        model: ModelVariant::Classic,
        rgba: vec![0; 10],
    };
    assert!(matches!(
        render_head_png_data_url(&short, true, 8),
        Err(ViewerError::InvalidTextureData { width: 64, height: 64, actual_len: 10 })
    ));
    let tiny = SkinImage {
        width: 8,
        height: 8,
        format: SkinFormat::Modern64x64,
        model: ModelVariant::Classic,
        rgba: vec![0; 8 * 8 * 4],
    };
    assert!(matches!(render_head_png_data_url(&tiny, false, 8), Err(ViewerError::InvalidPng)));
    let narrow = SkinImage {
        width: 44,
        height: 64,
        format: SkinFormat::Modern64x64,
        model: ModelVariant::Classic,
        rgba: vec![255; 44 * 64 * 4],
    };
    assert!(matches!(render_head_png_data_url(&narrow, true, 8), Err(ViewerError::InvalidPng)));
    let url = render_head_png_data_url(&narrow, false, 8).expect("base face exports");
    assert!(url.starts_with("data:image/png;base64,"));
}
