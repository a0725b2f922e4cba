use vstd::prelude::*;

use crate::codec::{
    decode_image_rgba8, encode_png_rgba8, image_decode_rgba8, nearest_resize_rgba8,
    png_encode_rgba8, resize_fits, resize_nearest_rgba8,
};
use crate::error::AppError;
use crate::types::{pixel_safe_size, round_to_pixel_grid};
use crate::pixels::{
    alpha_at, byte_offset, composite8, composite8_exec, crop8, crop8_exec, has_visible_overlay, overlay_has_visible,
    HEAD_SIZE, HEAD_X, HEAD_Y, OVERLAY_X, OVERLAY_Y,
};

verus! {

/// The 8x8 face of a decoded skin: the base face, with the helmet layer
/// composited over it when the skin is at least 48x64 and the helmet has a
/// visible pixel. Skins smaller than 16x16 are refused.
pub open spec fn helm_face_spec(width: u32, height: u32, rgba: Seq<u8>) -> Result<
    Seq<u8>,
    AppError,
> {
    if width < 16 || height < 16 {
        Err(AppError::InvalidSkinImage)
    } else {
        let head = crop8(rgba, width as int, 8, 8);
        if width >= 48 && height >= 64 && overlay_has_visible(rgba, width as int) {
            Ok(composite8(head, crop8(rgba, width as int, 40, 8)))
        } else {
            Ok(head)
        }
    }
}

/// A skin under 64 rows (the legacy 64x32 layout) or under 48 columns is
/// rendered from its base face only, whatever its helmet area holds.
pub proof fn lemma_legacy_skin_face_is_base_face(width: u32, height: u32, rgba: Seq<u8>)
    requires
        width >= 16,
        height >= 16,
        height < 64 || width < 48,
    ensures
        helm_face_spec(width, height, rgba) == Ok::<Seq<u8>, AppError>(crop8(rgba, width as int, 8, 8)),
{
}

/// An opaque helmet pixel covers the face: for a skin at least 48x64 whose
/// buffer holds its pixels, a pixel of the helmet square (columns 40..48, rows
/// 8..16, any of its rows) with alpha 255 appears, all four bytes, at the same
/// place of the rendered 8x8 face.
pub proof fn lemma_opaque_helmet_pixel_shows(width: u32, height: u32, rgba: Seq<u8>, x: int, y: int)
    requires
        width >= 48,
        height >= 64,
        width * height * 4 <= rgba.len(),
        40 <= x < 48,
        8 <= y < 16,
        rgba[(y * width + x) * 4 + 3] == 255,
    ensures
        helm_face_spec(width, height, rgba) matches Ok(face) && face.len() == 256 && forall|c: int|
            0 <= c < 4 ==> #[trigger] face[((y - 8) * 8 + (x - 40)) * 4 + c] == rgba[(y * width + x)
                * 4 + c],
{
    assert(alpha_at(rgba, width as int, x, y) != 0);
    let head = crop8(rgba, width as int, 8, 8);
    let hat = crop8(rgba, width as int, 40, 8);
    let face = composite8(head, hat);
    let p = (y - 8) * 8 + (x - 40);
    assert(p % 8 == x - 40 && p / 8 == y - 8);
    assert forall|c: int| 0 <= c < 4 implies #[trigger] face[p * 4 + c] == rgba[(y * width + x) * 4 + c] by {
        assert((p * 4 + c) / 4 == p && (p * 4 + c) % 4 == c);
        assert(hat[4 * p + c] == rgba[byte_offset(width as int, x, y) + c]) by {
            assert((4 * p + c) / 4 == p && (4 * p + c) % 4 == c);
        }
        assert(hat[4 * p + 3] == 255) by {
            assert((4 * p + 3) / 4 == p && (4 * p + 3) % 4 == 3);
        }
    }
}

/// A 64x64 skin whose helmet square is fully transparent renders its base face.
pub proof fn lemma_transparent_helmet_is_ignored(width: u32, height: u32, rgba: Seq<u8>)
    requires
        width >= 16,
        height >= 16,
        !overlay_has_visible(rgba, width as int),
    ensures
        helm_face_spec(width, height, rgba) == Ok::<Seq<u8>, AppError>(crop8(rgba, width as int, 8, 8)),
{
}

/// The PNG that `render_helm_png` answers for a skin file and an output size:
/// the face, resized to the pixel-safe size nearest to the requested one.
pub open spec fn render_helm_png_spec(skin_png: Seq<u8>, size: u32) -> Result<Seq<u8>, AppError> {
    let side = pixel_safe_size(size) as u32;
    match image_decode_rgba8(skin_png) {
        None => Err(AppError::InvalidSkinImage),
        Some(decoded) => match helm_face_spec(decoded.0, decoded.1, decoded.2) {
            Err(e) => Err(e),
            Ok(face) => match png_encode_rgba8(
                side,
                side,
                nearest_resize_rgba8(8, 8, face, side, side),
            ) {
                None => Err(AppError::Internal),
                Some(png) => Ok(png),
            },
        },
    }
}

/// A byte-vector result agrees with a byte-sequence result.
pub open spec fn same_bytes_result<E>(r: Result<Vec<u8>, E>, s: Result<Seq<u8>, E>) -> bool {
    match r {
        Ok(v) => s matches Ok(t) && v@ == t,
        Err(e) => s matches Err(f) && e == f,
    }
}

/// Crops the face out of a decoded RGBA8 skin and composites the helmet layer.
pub fn helm_face_rgba(width: u32, height: u32, rgba: &Vec<u8>) -> (r: Result<Vec<u8>, AppError>)
    requires
        rgba@.len() >= width * height * 4,
    ensures
        same_bytes_result(r, helm_face_spec(width, height, rgba@)),
        r matches Ok(face) ==> face@.len() == 256,
{
    if width < 16 || height < 16 {
        return Err(AppError::InvalidSkinImage);
    }
    let head = crop8_exec(rgba, width, height, HEAD_X, HEAD_Y);
    if width >= OVERLAY_X + HEAD_SIZE && height >= 64 && has_visible_overlay(rgba, width, height) {
        let overlay = crop8_exec(rgba, width, height, OVERLAY_X, OVERLAY_Y);
        return Ok(composite8_exec(&head, &overlay));
    }
    Ok(head)
}

/// Renders the helmeted face of a skin file as a square PNG: decode, crop the
/// face, composite the helmet layer, resize with nearest-neighbour sampling to
/// the pixel-safe size nearest to `size` (so each head pixel is an equal
/// square) and encode.
pub fn render_helm_png(skin_png: &[u8], size: u32) -> (r: Result<Vec<u8>, AppError>)
    requires
        resize_fits(8, pixel_safe_size(size), pixel_safe_size(size)),
    ensures
        same_bytes_result(r, render_helm_png_spec(skin_png@, size)),
{
    let decoded = match decode_image_rgba8(skin_png) {
        Some(decoded) => decoded,
        None => return Err(AppError::InvalidSkinImage),
    };
    let (width, height, rgba) = decoded;
    let face = match helm_face_rgba(width, height, &rgba) {
        Ok(face) => face,
        Err(e) => return Err(e),
    };
    let wide: u64 = round_to_pixel_grid(size);
    assert(wide < 0x1_0000_0000) by (nonlinear_arith)
        requires
            wide * wide * 4 <= 0x7fff_ffff_ffff_ffff,
            wide >= 8,
    ;
    let side: u32 = wide as u32;
    let resized = resize_nearest_rgba8(8, 8, face, side, side);
    match encode_png_rgba8(side, side, resized.as_slice()) {
        Some(png) => Ok(png),
        None => Err(AppError::Internal),
    }
}

} // verus!
