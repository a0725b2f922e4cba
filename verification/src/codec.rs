use vstd::prelude::*;

use base64::Engine;
use image::GenericImageView;
use image::ImageEncoder;

verus! {

/// What `image::load_from_memory` decodes a byte buffer to, as width, height and
/// RGBA8 pixel bytes (`None` where it reports an error).
pub uninterp spec fn image_decode_rgba8(bytes: Seq<u8>) -> Option<(u32, u32, Seq<u8>)>;

/// What the `image` crate's PNG encoder writes for an RGBA8 image (`None` where
/// it reports an error).
pub uninterp spec fn png_encode_rgba8(width: u32, height: u32, rgba: Seq<u8>) -> Option<Seq<u8>>;

/// What `image::imageops::resize` with `FilterType::Nearest` makes of an RGBA8
/// image, as RGBA8 pixel bytes.
pub uninterp spec fn nearest_resize_rgba8(
    width: u32,
    height: u32,
    rgba: Seq<u8>,
    new_width: u32,
    new_height: u32,
) -> Seq<u8>;

/// The character of a 6-bit value in the standard base64 alphabet.
pub open spec fn base64_digit(v: int) -> char {
    if v < 26 {
        (('A' as int) + v) as char
    } else if v < 52 {
        (('a' as int) + v - 26) as char
    } else if v < 62 {
        (('0' as int) + v - 52) as char
    } else if v == 62 {
        '+'
    } else {
        '/'
    }
}

/// Standard base64 with padding: every 3 bytes become 4 characters of 6 bits
/// each, and a last group of 1 or 2 bytes becomes 2 or 3 characters, its
/// unused bits zero, padded with `=` to 4.
pub open spec fn base64_standard_encode(b: Seq<u8>) -> Seq<char>
    decreases b.len(),
{
    if b.len() == 0 {
        Seq::empty()
    } else {
        let x0 = b[0] as int;
        let x1 = if b.len() >= 2 { b[1] as int } else { 0 };
        let x2 = if b.len() >= 3 { b[2] as int } else { 0 };
        let c0 = base64_digit(x0 / 4);
        let c1 = base64_digit((x0 % 4) * 16 + x1 / 16);
        let c2 = base64_digit((x1 % 16) * 4 + x2 / 64);
        let c3 = base64_digit(x2 % 64);
        if b.len() == 1 {
            seq![c0, c1, '=', '=']
        } else if b.len() == 2 {
            seq![c0, c1, c2, '=']
        } else {
            seq![c0, c1, c2, c3] + base64_standard_encode(b.skip(3))
        }
    }
}

/// Standard base64 decoding: the bytes whose encoding is `text`, if any. With
/// canonical padding required and unused bits required zero, a text decodes
/// exactly when it is the encoding of some bytes, which are then unique
/// (`lemma_base64_injective`).
pub open spec fn base64_standard_decode(text: Seq<char>) -> Option<Seq<u8>> {
    if exists|b: Seq<u8>| base64_standard_encode(b) == text {
        Some(choose|b: Seq<u8>| base64_standard_encode(b) == text)
    } else {
        None
    }
}

/// The encoding of `n` bytes has `4 * ceil(n / 3)` characters.
pub proof fn lemma_base64_len(b: Seq<u8>)
    ensures
        base64_standard_encode(b).len() == base64_len(b.len() as int),
    decreases b.len(),
{
    if b.len() >= 3 {
        lemma_base64_len(b.skip(3));
    }
}

proof fn lemma_digit_injective(x: int, y: int)
    requires
        0 <= x < 64,
        0 <= y < 64,
        base64_digit(x) == base64_digit(y),
    ensures
        x == y,
{
    assert(base64_digit(x) as int == base64_digit(y) as int);
}

proof fn lemma_digit_not_pad(x: int)
    requires
        0 <= x < 64,
    ensures
        base64_digit(x) != '=',
{
    assert(base64_digit(x) as int != '=' as int);
}

/// The first four characters of a non-empty encoding.
proof fn lemma_encode_head(b: Seq<u8>)
    requires
        b.len() > 0,
    ensures
        ({
            let e = base64_standard_encode(b);
            let x0 = b[0] as int;
            let x1 = if b.len() >= 2 { b[1] as int } else { 0 };
            let x2 = if b.len() >= 3 { b[2] as int } else { 0 };
            &&& e.len() >= 4
            &&& e[0] == base64_digit(x0 / 4)
            &&& e[1] == base64_digit((x0 % 4) * 16 + x1 / 16)
            &&& e[2] == if b.len() == 1 { '=' } else { base64_digit((x1 % 16) * 4 + x2 / 64) }
            &&& e[3] == if b.len() <= 2 { '=' } else { base64_digit(x2 % 64) }
        }),
{
    let e = base64_standard_encode(b);
    let x0 = b[0] as int;
    let x1 = if b.len() >= 2 { b[1] as int } else { 0 };
    let x2 = if b.len() >= 3 { b[2] as int } else { 0 };
    let head = seq![
        base64_digit(x0 / 4),
        base64_digit((x0 % 4) * 16 + x1 / 16),
        base64_digit((x1 % 16) * 4 + x2 / 64),
        base64_digit(x2 % 64),
    ];
    if b.len() >= 3 {
        assert(e == head + base64_standard_encode(b.skip(3)));
        assert(e[0] == head[0] && e[1] == head[1] && e[2] == head[2] && e[3] == head[3]);
    }
}

/// No two byte sequences have the same standard base64.
pub proof fn lemma_base64_injective(a: Seq<u8>, b: Seq<u8>)
    requires
        base64_standard_encode(a) == base64_standard_encode(b),
    ensures
        a == b,
    decreases a.len(),
{
    let e = base64_standard_encode(a);
    let f = base64_standard_encode(b);
    lemma_base64_len(a);
    lemma_base64_len(b);
    if a.len() == 0 || b.len() == 0 {
        return;
    }
    let a0 = a[0] as int;
    let a1 = if a.len() >= 2 { a[1] as int } else { 0 };
    let a2 = if a.len() >= 3 { a[2] as int } else { 0 };
    let b0 = b[0] as int;
    let b1 = if b.len() >= 2 { b[1] as int } else { 0 };
    let b2 = if b.len() >= 3 { b[2] as int } else { 0 };
    lemma_encode_head(a);
    lemma_encode_head(b);
    assert(e[0] == f[0] && e[1] == f[1] && e[2] == f[2] && e[3] == f[3]);
    lemma_digit_injective(a0 / 4, b0 / 4);
    lemma_digit_injective((a0 % 4) * 16 + a1 / 16, (b0 % 4) * 16 + b1 / 16);
    lemma_digit_not_pad((a1 % 16) * 4 + a2 / 64);
    lemma_digit_not_pad((b1 % 16) * 4 + b2 / 64);
    lemma_digit_not_pad(a2 % 64);
    lemma_digit_not_pad(b2 % 64);
    assert(a.len() == 1 <==> b.len() == 1);
    assert(a.len() == 2 <==> b.len() == 2);
    if a.len() >= 2 {
        lemma_digit_injective((a1 % 16) * 4 + a2 / 64, (b1 % 16) * 4 + b2 / 64);
    }
    if a.len() >= 3 {
        lemma_digit_injective(a2 % 64, b2 % 64);
    }
    assert(a0 == b0 && a1 == b1 && a2 == b2) by (nonlinear_arith)
        requires
            a0 / 4 == b0 / 4,
            (a0 % 4) * 16 + a1 / 16 == (b0 % 4) * 16 + b1 / 16,
            (a1 % 16) * 4 + a2 / 64 == (b1 % 16) * 4 + b2 / 64,
            a2 % 64 == b2 % 64,
            0 <= a0 < 256,
            0 <= b0 < 256,
            0 <= a1 < 256,
            0 <= b1 < 256,
            0 <= a2 < 256,
            0 <= b2 < 256,
    ;
    if a.len() >= 3 {
        assert(e.skip(4) =~= base64_standard_encode(a.skip(3)));
        assert(f.skip(4) =~= base64_standard_encode(b.skip(3)));
        lemma_base64_injective(a.skip(3), b.skip(3));
        assert forall|i: int| 0 <= i < a.len() implies a[i] == b[i] by {
            if i >= 3 {
                assert(a[i] == a.skip(3)[i - 3]);
                assert(b[i] == b.skip(3)[i - 3]);
            }
        }
    }
    assert(a =~= b);
}

/// The buffers that a nearest-neighbour resize of a `width`-wide image to
/// `new_width` x `new_height` allocates stay within what a `Vec` can hold.
pub open spec fn resize_fits(width: int, new_width: int, new_height: int) -> bool {
    new_width * new_height * 4 <= isize::MAX && width * new_height * 16 <= isize::MAX
}

/// Length of the padded standard base64 text of `n` bytes.
pub open spec fn base64_len(n: int) -> int {
    ((n + 2) / 3) * 4
}

/// Calls `image::load_from_memory`, which guesses the format from the bytes and
/// decodes them, and converts the image to RGBA8 (`to_rgba8`, `into_raw`).
/// Claimed: the result is the named decoding of the bytes, and the pixel buffer
/// holds at least `width * height * 4` bytes (the image buffer's own invariant).
#[verifier::external_body]
pub(crate) fn decode_image_rgba8(bytes: &[u8]) -> (r: Option<(u32, u32, Vec<u8>)>)
    ensures
        r is Some <==> image_decode_rgba8(bytes@) is Some,
        r matches Some(d) ==> image_decode_rgba8(bytes@) == Some((d.0, d.1, d.2@)),
        r matches Some(d) ==> d.2@.len() >= d.0 * d.1 * 4,
{
    match image::load_from_memory(bytes) {
        Ok(decoded) => {
            let (width, height) = decoded.dimensions();
            Some((width, height, decoded.to_rgba8().into_raw()))
        },
        Err(_) => None,
    }
}

/// Calls `PngEncoder::write_image` on an RGBA8 buffer. `write_image` panics
/// unless the buffer holds exactly `width * height * 4` bytes, hence the
/// precondition. Claimed: the result is the named encoding; the output is a
/// `Vec`, so it is no longer than `isize::MAX`.
#[verifier::external_body]
pub(crate) fn encode_png_rgba8(width: u32, height: u32, rgba: &[u8]) -> (r: Option<Vec<u8>>)
    requires
        rgba@.len() == width * height * 4,
    ensures
        r is Some <==> png_encode_rgba8(width, height, rgba@) is Some,
        r matches Some(b) ==> png_encode_rgba8(width, height, rgba@) == Some(b@),
        r matches Some(b) ==> b@.len() <= isize::MAX,
{
    let mut bytes: Vec<u8> = Vec::new();
    let encoder = image::codecs::png::PngEncoder::new(&mut bytes);
    match encoder.write_image(rgba, width, height, image::ExtendedColorType::Rgba8) {
        Ok(()) => Some(bytes),
        Err(_) => None,
    }
}

/// Calls `image::imageops::resize` with `FilterType::Nearest` on an RGBA8 image
/// built from the buffer (`RgbaImage::from_raw`, which accepts it since it holds
/// `width * height * 4` bytes). Claimed: the result is the named resize, and it
/// holds exactly `new_width * new_height * 4` bytes (`ImageBuffer::new`).
#[verifier::external_body]
pub(crate) fn resize_nearest_rgba8(
    width: u32,
    height: u32,
    rgba: Vec<u8>,
    new_width: u32,
    new_height: u32,
) -> (r: Vec<u8>)
    requires
        rgba@.len() == width * height * 4,
        resize_fits(width as int, new_width as int, new_height as int),
    ensures
        r@ == nearest_resize_rgba8(width, height, rgba@, new_width, new_height),
        r@.len() == new_width * new_height * 4,
{
    let source = image::RgbaImage::from_raw(width, height, rgba).unwrap();
    image::imageops::resize(&source, new_width, new_height, image::imageops::FilterType::Nearest)
        .into_raw()
}

/// Calls `STANDARD.encode` of the `base64` crate, which panics only when the
/// output length overflows `usize`. Claimed: the result is the standard base64
/// of the bytes, with padding.
#[verifier::external_body]
pub(crate) fn base64_encode(bytes: &[u8]) -> (r: String)
    requires
        base64_len(bytes@.len() as int) <= usize::MAX,
    ensures
        r@ == base64_standard_encode(bytes@),
{
    base64::engine::general_purpose::STANDARD.encode(bytes)
}

/// Calls `STANDARD.decode` of the `base64` crate on the bytes of a text, which
/// requires canonical padding and zero unused bits. Claimed: it succeeds
/// exactly on the texts that are the standard base64 of some bytes, and gives
/// those bytes.
#[verifier::external_body]
pub(crate) fn base64_decode(text: &str) -> (r: Option<Vec<u8>>)
    ensures
        r is Some <==> exists|b: Seq<u8>| base64_standard_encode(b) == text@,
        r matches Some(b) ==> base64_standard_encode(b@) == text@,
{
    match base64::engine::general_purpose::STANDARD.decode(text) {
        Ok(bytes) => Some(bytes),
        Err(_) => None,
    }
}

} // verus!
