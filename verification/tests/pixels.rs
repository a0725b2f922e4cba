use skinhelm::pixels::{alpha_blend, Pixel};
use skinhelm::text::{ascii_lowercase, parse_u32, push_decimal};

#[test]
fn blend_extremes_and_rounding() {
    let bottom = Pixel { r: 10, g: 20, b: 30, a: 40 };
    let clear = Pixel { r: 1, g: 2, b: 3, a: 0 };
    let solid = Pixel { r: 1, g: 2, b: 3, a: 255 };
    assert_eq!(alpha_blend(bottom, clear), bottom);
    assert_eq!(alpha_blend(bottom, solid), solid);
    let half = Pixel { r: 200, g: 0, b: 100, a: 128 };
    let out = alpha_blend(Pixel { r: 0, g: 0, b: 0, a: 0 }, half);
    assert_eq!(out, Pixel { r: 200, g: 0, b: 100, a: 128 });
    let over = alpha_blend(Pixel { r: 0, g: 255, b: 0, a: 100 }, Pixel { r: 255, g: 0, b: 0, a: 100 });
    assert!(over.a >= 100);
    assert_eq!(over.a, 161);
}

#[test]
fn text_helpers() {
    assert_eq!(ascii_lowercase("AbC_É"), "abc_É");
    assert_eq!(parse_u32("4294967295"), Some(u32::MAX));
    assert_eq!(parse_u32("4294967296"), None);
    assert_eq!(parse_u32("+0"), Some(0));
    assert_eq!(parse_u32("++1"), None);
    let mut s = String::from("n=");
    push_decimal(&mut s, 1234567890123);
    assert_eq!(s, "n=1234567890123");
    let mut zero = String::new();
    push_decimal(&mut zero, 0);
    assert_eq!(parse_u32(&zero), Some(0));
}
