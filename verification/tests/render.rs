use base64::Engine;
use image::ImageEncoder;
use image::{ImageBuffer, Rgba, RgbaImage};
use skinhelm::error::AppError;
use skinhelm::pixels::{HEAD_SIZE, HEAD_X, HEAD_Y, OVERLAY_X, OVERLAY_Y};
use skinhelm::render::{helm_face_rgba, render_helm_png};

fn encode_test_png(image: &RgbaImage) -> Vec<u8> {
    let mut bytes = Vec::new();
    image::codecs::png::PngEncoder::new(&mut bytes)
        .write_image(
            image.as_raw(),
            image.width(),
            image.height(),
            image::ExtendedColorType::Rgba8,
        )
        .expect("test image encodes");
    bytes
}

#[test]
fn renders_64x64_overlay_with_alpha() {
    let mut skin = ImageBuffer::from_pixel(64, 64, Rgba([0, 0, 0, 0]));
    for y in HEAD_Y..HEAD_Y + HEAD_SIZE {
        for x in HEAD_X..HEAD_X + HEAD_SIZE {
            skin.put_pixel(x, y, Rgba([255, 0, 0, 255]));
        }
    }
    for y in OVERLAY_Y..OVERLAY_Y + HEAD_SIZE {
        for x in OVERLAY_X..OVERLAY_X + HEAD_SIZE {
            skin.put_pixel(x, y, Rgba([0, 0, 255, 128]));
        }
    }

    let rendered = render_helm_png(&encode_test_png(&skin), 8).expect("renders helm");
    let output = image::load_from_memory(&rendered)
        .expect("output decodes")
        .to_rgba8();
    let pixel = *output.get_pixel(0, 0);

    assert_ne!(pixel, Rgba([255, 0, 0, 255]));
    assert_ne!(pixel, Rgba([0, 0, 255, 128]));
}

#[test]
fn renders_64x32_without_overlay() {
    let mut skin = ImageBuffer::from_pixel(64, 32, Rgba([0, 0, 0, 0]));
    for y in HEAD_Y..HEAD_Y + HEAD_SIZE {
        for x in HEAD_X..HEAD_X + HEAD_SIZE {
            skin.put_pixel(x, y, Rgba([20, 40, 60, 255]));
        }
    }
    for y in OVERLAY_Y..OVERLAY_Y + HEAD_SIZE {
        for x in OVERLAY_X..OVERLAY_X + HEAD_SIZE {
            skin.put_pixel(x, y, Rgba([255, 255, 0, 255]));
        }
    }

    let rendered = render_helm_png(&encode_test_png(&skin), 8).expect("renders helm");
    let output = image::load_from_memory(&rendered)
        .expect("output decodes")
        .to_rgba8();

    assert_eq!(*output.get_pixel(0, 0), Rgba([20, 40, 60, 255]));
}

#[test]
fn resizes_with_nearest_neighbor() {
    let mut skin = ImageBuffer::from_pixel(64, 64, Rgba([0, 0, 0, 0]));
    for y in HEAD_Y..HEAD_Y + HEAD_SIZE {
        for x in HEAD_X..HEAD_X + HEAD_SIZE {
            let color = if x < HEAD_X + 4 {
                Rgba([255, 0, 0, 255])
            } else {
                Rgba([0, 255, 0, 255])
            };
            skin.put_pixel(x, y, color);
        }
    }

    let rendered = render_helm_png(&encode_test_png(&skin), 16).expect("renders helm");
    let output = image::load_from_memory(&rendered)
        .expect("output decodes")
        .to_rgba8();

    assert_eq!(output.dimensions(), (16, 16));
    assert_eq!(*output.get_pixel(0, 0), Rgba([255, 0, 0, 255]));
    assert_eq!(*output.get_pixel(7, 0), Rgba([255, 0, 0, 255]));
    assert_eq!(*output.get_pixel(8, 0), Rgba([0, 255, 0, 255]));
}

#[test]
fn rejects_invalid_image() {
    let err = render_helm_png(b"not a png", 128).expect_err("invalid image fails");
    assert!(matches!(err, AppError::InvalidSkinImage));
}

#[test]
fn rejects_skins_smaller_than_a_face() {
    let skin = ImageBuffer::from_pixel(12, 12, Rgba([1, 2, 3, 255]));
    let err = render_helm_png(&encode_test_png(&skin), 8).expect_err("tiny skin fails");
    assert_eq!(err, AppError::InvalidSkinImage);
}

#[test]
fn face_composites_helmet_with_exact_rounding() {
    let mut rgba = vec![0u8; 64 * 64 * 4];
    let put = |rgba: &mut Vec<u8>, x: usize, y: usize, p: [u8; 4]| {
        rgba[(y * 64 + x) * 4..(y * 64 + x) * 4 + 4].copy_from_slice(&p);
    };
    put(&mut rgba, 8, 8, [255, 0, 0, 255]);
    put(&mut rgba, 40, 8, [0, 0, 255, 128]);
    put(&mut rgba, 9, 8, [10, 20, 30, 40]);
    let face = helm_face_rgba(64, 64, &rgba).expect("face");
    assert_eq!(face.len(), 256);
    // 128 over 255: alpha 128 + (255 * 127 + 127) / 255 = 255.
    assert_eq!(&face[0..4], &[127, 0, 128, 255]);
    // Transparent helmet pixel keeps the base.
    assert_eq!(&face[4..8], &[10, 20, 30, 40]);
}

#[test]
fn face_ignores_fully_transparent_helmet() {
    let mut rgba = vec![0u8; 64 * 64 * 4];
    rgba[(8 * 64 + 8) * 4..(8 * 64 + 8) * 4 + 4].copy_from_slice(&[5, 6, 7, 200]);
    let face = helm_face_rgba(64, 64, &rgba).expect("face");
    assert_eq!(&face[0..4], &[5, 6, 7, 200]);
}

#[test]
fn viewer_head_export_matches_helm_render() {
    let mut skin = ImageBuffer::from_pixel(64, 64, Rgba([0, 0, 0, 0]));
    for y in HEAD_Y..HEAD_Y + HEAD_SIZE {
        for x in HEAD_X..HEAD_X + HEAD_SIZE {
            skin.put_pixel(x, y, Rgba([200, (x * 20) as u8, (y * 10) as u8, 255]));
        }
    }
    skin.put_pixel(OVERLAY_X + 2, OVERLAY_Y + 3, Rgba([10, 20, 30, 100]));
    let png = encode_test_png(&skin);
    let decoded = skinhelm::skin::decode_png(&png).expect("skin decodes");
    let url = skinhelm::skin::render_head_png_data_url(&decoded, true, 16).expect("head exports");
    let exported = base64::engine::general_purpose::STANDARD
        .decode(url.strip_prefix("data:image/png;base64,").expect("data url"))
        .expect("base64 decodes");
    let helm = render_helm_png(&png, 16).expect("helm renders");
    assert_eq!(exported, helm);
}

#[test]
fn renders_at_the_nearest_pixel_safe_size() {
    let skin = ImageBuffer::from_pixel(64, 64, Rgba([20, 40, 60, 255]));
    let rendered = render_helm_png(&encode_test_png(&skin), 180).expect("renders helm");
    let output = image::load_from_memory(&rendered)
        .expect("output decodes")
        .to_rgba8();
    assert_eq!(output.dimensions(), (184, 184));
    assert_eq!(*output.get_pixel(183, 183), Rgba([20, 40, 60, 255]));
    let small = render_helm_png(&encode_test_png(&skin), 3).expect("renders helm");
    let output = image::load_from_memory(&small).expect("output decodes");
    assert_eq!((output.width(), output.height()), (8, 8));
}

#[test]
fn pixel_grid_rounding() {
    let cases = [(0, 8), (3, 8), (4, 8), (11, 8), (12, 16), (179, 176), (180, 184), (512, 512), (1000, 1000)];
    for (size, expected) in cases {
        assert_eq!(skinhelm::types::round_to_pixel_grid(size), expected);
    }
    assert_eq!(skinhelm::types::round_to_pixel_grid(u32::MAX), 4_294_967_296);
}
