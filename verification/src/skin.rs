use vstd::prelude::*;
use vstd::string::*;

use crate::codec::{
    base64_encode, base64_standard_encode, decode_image_rgba8, encode_png_rgba8,
    image_decode_rgba8, nearest_resize_rgba8, png_encode_rgba8, resize_fits, resize_nearest_rgba8,
};
use crate::error::{AppError, ViewerError};
use crate::pixels::{
    composite8, composite8_exec, crop8, crop8_exec, has_visible_overlay, overlay_has_visible,
    overlay_row_has_visible, HEAD_SIZE, HEAD_X, HEAD_Y, OVERLAY_X, OVERLAY_Y,
};
use crate::layout::model_layout_spec;
use crate::render::helm_face_spec;

verus! {

broadcast use vstd::string::group_string_axioms;

#[derive(Debug, Clone, Copy, PartialEq, Eq, Structural)]
pub enum SkinFormat {
    Modern64x64,
    Legacy64x32,
}

#[derive(Debug, Clone, Copy, PartialEq, Eq, Structural)]
pub enum ModelVariant {
    Classic,
    Slim,
}

/// A decoded skin texture: RGBA8 pixels, row by row.
#[derive(Debug, Clone)]
pub struct SkinImage {
    pub width: u32,
    pub height: u32,
    pub format: SkinFormat,
    pub model: ModelVariant,
    pub rgba: Vec<u8>,
}

/// A decoded cape texture: RGBA8 pixels, row by row.
#[derive(Debug, Clone)]
pub struct CapeImage {
    pub width: u32,
    pub height: u32,
    pub rgba: Vec<u8>,
}

/// The skin layouts the viewer supports: 64x64 (modern) and 64x32 (legacy).
pub open spec fn skin_format_for(width: u32, height: u32) -> Option<SkinFormat> {
    if width == 64 && height == 64 {
        Some(SkinFormat::Modern64x64)
    } else if width == 64 && height == 32 {
        Some(SkinFormat::Legacy64x32)
    } else {
        None
    }
}

pub open spec fn cape_dimensions_ok(width: u32, height: u32) -> bool {
    width == 64 && (height == 32 || height == 64)
}

/// Alpha byte at `offset`, with bytes past the buffer counted as opaque.
pub open spec fn alpha_or_opaque(rgba: Seq<u8>, offset: int) -> u8 {
    if 0 <= offset < rgba.len() {
        rgba[offset]
    } else {
        255
    }
}

/// Alpha of the `k`-th pixel of the 2x12 column block at `(x, y)`, row by row.
pub open spec fn column_alpha(rgba: Seq<u8>, width: int, x: int, y: int, k: int) -> u8 {
    alpha_or_opaque(rgba, ((y + k / 2) * width + x + k % 2) * 4 + 3)
}

/// Number of fully transparent pixels among the first `n` of the column block.
pub open spec fn transparent_count(rgba: Seq<u8>, width: int, x: int, y: int, n: nat) -> nat
    decreases n,
{
    if n == 0 {
        0
    } else {
        transparent_count(rgba, width, x, y, (n - 1) as nat) + if column_alpha(
            rgba,
            width,
            x,
            y,
            n - 1,
        ) == 0 {
            1nat
        } else {
            0nat
        }
    }
}

/// At most two of the 24 pixels of the 2x12 block at `(x, y)` are visible.
pub open spec fn arm_columns_transparent(rgba: Seq<u8>, width: int, x: int, y: int) -> bool {
    transparent_count(rgba, width, x, y, 24) >= 22
}

/// A 64x64 skin whose two columns that only classic (4 pixel wide) arms use are
/// transparent on both arms is slim; every other skin is classic.
pub open spec fn detect_model_spec(width: u32, height: u32, rgba: Seq<u8>) -> ModelVariant {
    if width != 64 || height != 64 {
        ModelVariant::Classic
    } else if arm_columns_transparent(rgba, 64, 54, 20) && arm_columns_transparent(
        rgba,
        64,
        46,
        52,
    ) {
        ModelVariant::Slim
    } else {
        ModelVariant::Classic
    }
}

/// The skin built from decoded pixels, or the dimension error.
pub open spec fn skin_from_pixels_ok(
    width: u32,
    height: u32,
    rgba: Seq<u8>,
    r: Result<SkinImage, ViewerError>,
) -> bool {
    match skin_format_for(width, height) {
        None => r == Err::<SkinImage, ViewerError>(
            ViewerError::UnsupportedSkinDimensions(width, height),
        ),
        Some(format) => r matches Ok(skin) && skin.width == width && skin.height == height
            && skin.format == format && skin.model == detect_model_spec(width, height, rgba)
            && skin.rgba@ == rgba,
    }
}

/// The cape built from decoded pixels, or the dimension error.
pub open spec fn cape_from_pixels_ok(
    width: u32,
    height: u32,
    rgba: Seq<u8>,
    r: Result<CapeImage, ViewerError>,
) -> bool {
    if cape_dimensions_ok(width, height) {
        r matches Ok(cape) && cape.width == width && cape.height == height && cape.rgba@ == rgba
    } else {
        r == Err::<CapeImage, ViewerError>(ViewerError::UnsupportedCapeDimensions(width, height))
    }
}

pub fn validate_dimensions(width: u32, height: u32) -> (r: Result<SkinFormat, ViewerError>)
    ensures
        match skin_format_for(width, height) {
            Some(format) => r == Ok::<SkinFormat, ViewerError>(format),
            None => r == Err::<SkinFormat, ViewerError>(
                ViewerError::UnsupportedSkinDimensions(width, height),
            ),
        },
{
    if width == 64 && height == 64 {
        Ok(SkinFormat::Modern64x64)
    } else if width == 64 && height == 32 {
        Ok(SkinFormat::Legacy64x32)
    } else {
        Err(ViewerError::UnsupportedSkinDimensions(width, height))
    }
}

pub fn validate_cape_dimensions(width: u32, height: u32) -> (r: Result<(), ViewerError>)
    ensures
        cape_dimensions_ok(width, height) ==> r is Ok,
        !cape_dimensions_ok(width, height) ==> r == Err::<(), ViewerError>(
            ViewerError::UnsupportedCapeDimensions(width, height),
        ),
{
    if width == 64 && (height == 32 || height == 64) {
        Ok(())
    } else {
        Err(ViewerError::UnsupportedCapeDimensions(width, height))
    }
}

proof fn lemma_row_offset_monotone(py: int, px: int, width: int, y_max: int, x_max: int)
    requires
        0 <= py <= y_max,
        0 <= px <= x_max,
        0 <= width,
    ensures
        0 <= py * width + px <= y_max * width + x_max,
{
    assert(0 <= py * width <= y_max * width) by (nonlinear_arith)
        requires
            0 <= py <= y_max,
            0 <= width,
    ;
}

/// Whether at most two of the 24 pixels of the 2x12 column block at `(x, y)` are
/// visible; pixels past the end of the buffer count as visible.
pub fn classic_arm_only_columns_are_transparent(rgba: &[u8], width: u32, x: u32, y: u32) -> (b:
    bool)
    requires
        y + 12 <= u32::MAX,
        x + 2 <= u32::MAX,
        ((y + 11) * width + x + 1) * 4 + 3 <= u32::MAX,
    ensures
        b == arm_columns_transparent(rgba@, width as int, x as int, y as int),
{
    let mut transparent: u32 = 0;
    let mut k: u32 = 0;
    while k < 24
        invariant
            y + 12 <= u32::MAX,
            x + 2 <= u32::MAX,
            ((y + 11) * width + x + 1) * 4 + 3 <= u32::MAX,
            k <= 24,
            transparent == transparent_count(rgba@, width as int, x as int, y as int, k as nat),
            transparent <= k,
        decreases 24 - k,
    {
        let py = y + k / 2;
        let px = x + k % 2;
        proof {
            lemma_row_offset_monotone(
                py as int,
                px as int,
                width as int,
                (y + 11) as int,
                (x + 1) as int,
            );
        }
        let offset = ((py * width + px) * 4 + 3) as usize;
        let alpha: u8 = if offset < rgba.len() {
            rgba[offset]
        } else {
            255
        };
        if alpha == 0 {
            transparent = transparent + 1;
        }
        k = k + 1;
    }
    transparent >= 22
}

/// Classic or slim, from the pixels only classic arms cover.
pub fn detect_model_variant(width: u32, height: u32, rgba: &[u8]) -> (m: ModelVariant)
    ensures
        m == detect_model_spec(width, height, rgba@),
{
    if width != 64 || height != 64 {
        return ModelVariant::Classic;
    }
    if classic_arm_only_columns_are_transparent(rgba, width, 54, 20)
        && classic_arm_only_columns_are_transparent(rgba, width, 46, 52) {
        ModelVariant::Slim
    } else {
        ModelVariant::Classic
    }
}

/// Builds a skin from decoded RGBA8 pixels: checks the layout and detects the
/// arm model.
pub fn skin_image_from_rgba(width: u32, height: u32, rgba: Vec<u8>) -> (r: Result<
    SkinImage,
    ViewerError,
>)
    ensures
        skin_from_pixels_ok(width, height, rgba@, r),
{
    let format = match validate_dimensions(width, height) {
        Ok(format) => format,
        Err(e) => return Err(e),
    };
    let model = detect_model_variant(width, height, rgba.as_slice());
    Ok(SkinImage { width, height, format, model, rgba })
}

/// Decodes a skin file into a 64x64 or 64x32 RGBA8 skin with its detected model.
pub fn decode_png(bytes: &[u8]) -> (r: Result<SkinImage, ViewerError>)
    ensures
        match image_decode_rgba8(bytes@) {
            None => r == Err::<SkinImage, ViewerError>(ViewerError::InvalidPng),
            Some(decoded) => skin_from_pixels_ok(decoded.0, decoded.1, decoded.2, r),
        },
{
    match decode_image_rgba8(bytes) {
        None => Err(ViewerError::InvalidPng),
        Some(decoded) => {
            let (width, height, rgba) = decoded;
            skin_image_from_rgba(width, height, rgba)
        },
    }
}

/// Builds a cape from decoded RGBA8 pixels, checking its dimensions.
pub fn cape_image_from_rgba(width: u32, height: u32, rgba: Vec<u8>) -> (r: Result<
    CapeImage,
    ViewerError,
>)
    ensures
        cape_from_pixels_ok(width, height, rgba@, r),
{
    match validate_cape_dimensions(width, height) {
        Ok(()) => Ok(CapeImage { width, height, rgba }),
        Err(e) => Err(e),
    }
}

/// Decodes a cape file into a 64x32 or 64x64 RGBA8 texture.
pub fn decode_cape_png(bytes: &[u8]) -> (r: Result<CapeImage, ViewerError>)
    ensures
        match image_decode_rgba8(bytes@) {
            None => r == Err::<CapeImage, ViewerError>(ViewerError::InvalidCapePng),
            Some(decoded) => cape_from_pixels_ok(decoded.0, decoded.1, decoded.2, r),
        },
{
    match decode_image_rgba8(bytes) {
        None => Err(ViewerError::InvalidCapePng),
        Some(decoded) => {
            let (width, height, rgba) = decoded;
            cape_image_from_rgba(width, height, rgba)
        },
    }
}

/// The exported face of a skin: the base face, with the helmet layer
/// composited over it when asked for, the skin is at least 64 rows high and
/// the helmet has a visible pixel.
pub open spec fn head_face_spec(
    width: u32,
    height: u32,
    rgba: Seq<u8>,
    include_overlay: bool,
) -> Result<Seq<u8>, ViewerError> {
    if width * height * 4 > rgba.len() {
        Err(
            ViewerError::InvalidTextureData {
                width,
                height,
                actual_len: rgba.len() as usize,
            },
        )
    } else if width < 16 || height < 16 {
        Err(ViewerError::InvalidPng)
    } else if include_overlay && height >= 64 && overlay_has_visible(rgba, width as int) {
        if width < 48 {
            Err(ViewerError::InvalidPng)
        } else {
            Ok(composite8(crop8(rgba, width as int, 8, 8), crop8(rgba, width as int, 40, 8)))
        }
    } else {
        Ok(crop8(rgba, width as int, 8, 8))
    }
}

/// The inputs on which the face export is defined: a skin between 16 and 47
/// pixels wide, at least 64 rows high, asked for with its helmet layer, must
/// show a helmet pixel in the first helmet row before its right edge.
pub open spec fn head_export_defined(skin: SkinImage, include_overlay: bool) -> bool {
    !(skin.width * skin.height * 4 <= skin.rgba@.len() && skin.width >= 16 && skin.height >= 64
        && include_overlay && skin.width < 48 && !overlay_row_has_visible(
        skin.rgba@,
        skin.width as int,
    ))
}

/// The data URL that `render_head_png_data_url` answers.
pub open spec fn head_data_url_spec(skin: SkinImage, include_overlay: bool, size: u32) -> Result<
    Seq<char>,
    ViewerError,
> {
    match head_face_spec(skin.width, skin.height, skin.rgba@, include_overlay) {
        Err(e) => Err(e),
        Ok(face) => match png_encode_rgba8(size, size, nearest_resize_rgba8(8, 8, face, size, size)) {
            None => Err(ViewerError::PngEncode),
            Some(png) => Ok("data:image/png;base64,"@ + base64_standard_encode(png)),
        },
    }
}

/// Crops the 8x8 face of a skin, with the helmet layer composited when asked for.
pub fn head_face_rgba(skin: &SkinImage, include_overlay: bool) -> (r: Result<Vec<u8>, ViewerError>)
    requires
        head_export_defined(*skin, include_overlay),
    ensures
        match r {
            Ok(face) => head_face_spec(skin.width, skin.height, skin.rgba@, include_overlay)
                matches Ok(f) && face@ == f,
            Err(e) => head_face_spec(skin.width, skin.height, skin.rgba@, include_overlay)
                matches Err(f) && e == f,
        },
        r matches Ok(face) ==> face@.len() == 256,
{
    let width = skin.width;
    let height = skin.height;
    let len = skin.rgba.len();
    assert((width as u64) * (height as u64) <= 0xffff_ffff_u64 * 0xffff_ffff_u64) by (nonlinear_arith)
        requires
            width <= 0xffff_ffff,
            height <= 0xffff_ffff,
    ;
    if (width as u64) * (height as u64) > (len / 4) as u64 {
        return Err(ViewerError::InvalidTextureData { width, height, actual_len: len });
    }
    if width < 16 || height < 16 {
        return Err(ViewerError::InvalidPng);
    }
    let head = crop8_exec(&skin.rgba, width, height, HEAD_X, HEAD_Y);
    if include_overlay && height >= 64 && has_visible_overlay(&skin.rgba, width, height) {
        if width < OVERLAY_X + HEAD_SIZE {
            return Err(ViewerError::InvalidPng);
        }
        let overlay = crop8_exec(&skin.rgba, width, height, OVERLAY_X, OVERLAY_Y);
        return Ok(composite8_exec(&head, &overlay));
    }
    Ok(head)
}

/// Exports the face of a skin as a `size` x `size` PNG data URL.
pub fn render_head_png_data_url(skin: &SkinImage, include_overlay: bool, size: u32) -> (r: Result<
    String,
    ViewerError,
>)
    requires
        head_export_defined(*skin, include_overlay),
        resize_fits(8, size as int, size as int),
    ensures
        match r {
            Ok(url) => head_data_url_spec(*skin, include_overlay, size) matches Ok(u) && url@
                == u,
            Err(e) => head_data_url_spec(*skin, include_overlay, size) matches Err(f) && e == f,
        },
{
    let face = match head_face_rgba(skin, include_overlay) {
        Ok(face) => face,
        Err(e) => return Err(e),
    };
    let resized = resize_nearest_rgba8(8, 8, face, size, size);
    let png = match encode_png_rgba8(size, size, resized.as_slice()) {
        Some(png) => png,
        None => return Err(ViewerError::PngEncode),
    };
    let encoded = base64_encode(png.as_slice());
    let mut url = String::from_str("data:image/png;base64,");
    url.append(encoded.as_str());
    Ok(url)
}

/// Pixel `p` of a buffer `width` pixels wide lies in the `w` x `h` rectangle
/// at `(x, y)`, rows wrapping as the flat offsets do.
pub open spec fn rect_covers(width: int, x: int, y: int, w: int, h: int, p: int) -> bool {
    exists|py: int, px: int| y <= py < y + h && x <= px < x + w && p == #[trigger] (py * width + px)
}

/// The buffer after every pixel of the rectangle is set to `color`.
pub open spec fn fill_rect_spec(
    rgba: Seq<u8>,
    width: int,
    x: int,
    y: int,
    w: int,
    h: int,
    color: Seq<u8>,
) -> Seq<u8> {
    Seq::new(
        rgba.len(),
        |i: int|
            if rect_covers(width, x, y, w, h, i / 4) {
                color[i % 4]
            } else {
                rgba[i]
            },
    )
}

/// The last byte the rectangle writes lies inside the buffer.
pub open spec fn rect_fits(len: int, width: int, x: int, y: int, w: int, h: int) -> bool {
    w > 0 && h > 0 ==> ((y + h - 1) * width + x + w - 1) * 4 + 4 <= len
}

/// Sets every pixel of the `w` x `h` rectangle at `(x, y)` to `color`.
pub fn fill_rect(
    rgba: &mut Vec<u8>,
    width: usize,
    x: usize,
    y: usize,
    w: usize,
    h: usize,
    color: [u8; 4],
)
    requires
        x + w <= usize::MAX,
        y + h <= usize::MAX,
        rect_fits(old(rgba)@.len() as int, width as int, x as int, y as int, w as int, h as int),
    ensures
        final(rgba)@ == fill_rect_spec(
            old(rgba)@,
            width as int,
            x as int,
            y as int,
            w as int,
            h as int,
            color@,
        ),
{
    let ghost start = rgba@;
    let mut py = y;
    while py < y + h
        invariant
            x + w <= usize::MAX,
            y + h <= usize::MAX,
            rect_fits(start.len() as int, width as int, x as int, y as int, w as int, h as int),
            y <= py <= y + h,
            rgba@.len() == start.len(),
            forall|i: int|
                0 <= i < start.len() ==> #[trigger] rgba@[i] == (if rect_covers(
                    width as int,
                    x as int,
                    y as int,
                    w as int,
                    py - y,
                    i / 4,
                ) {
                    color@[i % 4]
                } else {
                    start[i]
                }),
        decreases y + h - py,
    {
        let mut px = x;
        while px < x + w
            invariant
                x + w <= usize::MAX,
                y + h <= usize::MAX,
                rect_fits(start.len() as int, width as int, x as int, y as int, w as int, h as int),
                y <= py < y + h,
                x <= px <= x + w,
                rgba@.len() == start.len(),
                forall|i: int|
                    0 <= i < start.len() ==> #[trigger] rgba@[i] == (if rect_covers(
                        width as int,
                        x as int,
                        y as int,
                        w as int,
                        py - y,
                        i / 4,
                    ) || rect_covers(width as int, x as int, py as int, px - x, 1, i / 4) {
                        color@[i % 4]
                    } else {
                        start[i]
                    }),
            decreases x + w - px,
        {
            let len = rgba.len();
            proof {
                lemma_row_offset_monotone(
                    py as int,
                    px as int,
                    width as int,
                    (y + h - 1) as int,
                    (x + w - 1) as int,
                );
                assert((py * width + px) * 4 + 4 <= len);
            }
            let offset = (py * width + px) * 4;
            let ghost p = py * width + px;
            let ghost before = rgba@;
            rgba[offset] = color[0];
            rgba[offset + 1] = color[1];
            rgba[offset + 2] = color[2];
            rgba[offset + 3] = color[3];
            proof {
                assert forall|i: int| 0 <= i < start.len() implies #[trigger] rgba@[i] == (if rect_covers(
                    width as int,
                    x as int,
                    y as int,
                    w as int,
                    py - y,
                    i / 4,
                ) || rect_covers(width as int, x as int, py as int, px + 1 - x, 1, i / 4) {
                    color@[i % 4]
                } else {
                    start[i]
                }) by {
                    if i / 4 == p {
                        assert(rect_covers(width as int, x as int, py as int, px + 1 - x, 1, i / 4)) by {
                            assert(p == py * width + px);
                        }
                        assert(offset <= i < offset + 4);
                    } else {
                        assert(!(offset <= i < offset + 4));
                        assert(rgba@[i] == before[i]);
                        if rect_covers(width as int, x as int, py as int, px + 1 - x, 1, i / 4) {
                            let (qy, qx) = choose|qy: int, qx: int|
                                py <= qy < py + 1 && x <= qx < px + 1 && i / 4 == #[trigger] (qy
                                    * width + qx);
                            assert(qy == py);
                            if qx == px {
                                assert(i / 4 == p);
                            }
                            assert(rect_covers(width as int, x as int, py as int, px - x, 1, i / 4));
                        }
                        if rect_covers(width as int, x as int, py as int, px - x, 1, i / 4) {
                            let (qy, qx) = choose|qy: int, qx: int|
                                py <= qy < py + 1 && x <= qx < px && i / 4 == #[trigger] (qy * width
                                    + qx);
                            assert(rect_covers(width as int, x as int, py as int, px + 1 - x, 1, i / 4));
                        }
                    }
                }
            }
            px = px + 1;
        }
        proof {
            assert forall|i: int| 0 <= i < start.len() implies #[trigger] rgba@[i] == (if rect_covers(
                width as int,
                x as int,
                y as int,
                w as int,
                py + 1 - y,
                i / 4,
            ) {
                color@[i % 4]
            } else {
                start[i]
            }) by {
                let a = rect_covers(width as int, x as int, y as int, w as int, py - y, i / 4);
                let b = rect_covers(width as int, x as int, py as int, w as int, 1, i / 4);
                let c = rect_covers(width as int, x as int, y as int, w as int, py + 1 - y, i / 4);
                if c {
                    let (qy, qx) = choose|qy: int, qx: int|
                        y <= qy < py + 1 && x <= qx < x + w && i / 4 == #[trigger] (qy * width + qx);
                    if qy == py {
                        assert(b);
                    } else {
                        assert(a);
                    }
                }
                if a {
                    let (qy, qx) = choose|qy: int, qx: int|
                        y <= qy < py && x <= qx < x + w && i / 4 == #[trigger] (qy * width + qx);
                    assert(c);
                }
                if b {
                    let (qy, qx) = choose|qy: int, qx: int|
                        py <= qy < py + 1 && x <= qx < x + w && i / 4 == #[trigger] (qy * width + qx);
                    assert(c);
                }
            }
        }
        py = py + 1;
    }
    assert(rgba@ =~= fill_rect_spec(start, width as int, x as int, y as int, w as int, h as int, color@));
}

/// Same as `fill_rect`; names the rectangles of the outer layer.
pub fn fill_overlay_rect(
    rgba: &mut Vec<u8>,
    width: usize,
    x: usize,
    y: usize,
    w: usize,
    h: usize,
    color: [u8; 4],
)
    requires
        x + w <= usize::MAX,
        y + h <= usize::MAX,
        rect_fits(old(rgba)@.len() as int, width as int, x as int, y as int, w as int, h as int),
    ensures
        final(rgba)@ == fill_rect_spec(
            old(rgba)@,
            width as int,
            x as int,
            y as int,
            w as int,
            h as int,
            color@,
        ),
{
    fill_rect(rgba, width, x, y, w, h, color);
}

pub open spec fn color4(r: u8, g: u8, b: u8, a: u8) -> Seq<u8> {
    seq![r, g, b, a]
}

/// Every supported skin size is also a supported cape size.
pub proof fn lemma_skin_sizes_are_cape_sizes(width: u32, height: u32)
    requires
        skin_format_for(width, height) is Some,
    ensures
        cape_dimensions_ok(width, height),
{
}

/// The viewer's head export with the helmet layer and the server's helmeted
/// head start from the same face: for a skin at least 48 pixels wide whose
/// buffer holds its pixels, both composite the helmet the same way.
pub proof fn lemma_viewer_export_matches_helm(width: u32, height: u32, rgba: Seq<u8>)
    requires
        width * height * 4 <= rgba.len(),
        width >= 48,
    ensures
        head_face_spec(width, height, rgba, true) matches Ok(face) ==> helm_face_spec(
            width,
            height,
            rgba,
        ) == Ok::<Seq<u8>, AppError>(face),
        height >= 16 ==> head_face_spec(width, height, rgba, true) is Ok,
{
}

/// Without the helmet layer, or for a skin under 64 rows (the legacy 64x32
/// layout), the exported face is the base face alone.
pub proof fn lemma_face_without_overlay_is_base_face(
    width: u32,
    height: u32,
    rgba: Seq<u8>,
    include_overlay: bool,
)
    requires
        width * height * 4 <= rgba.len(),
        width >= 16,
        height >= 16,
        !include_overlay || height < 64,
    ensures
        head_face_spec(width, height, rgba, include_overlay) == Ok::<Seq<u8>, ViewerError>(
            crop8(rgba, width as int, 8, 8),
        ),
{
}

/// Checks that a texture buffer holds exactly `width * height * 4` bytes,
/// the product taken in `u32` as the upload does.
pub fn check_texture_data(width: u32, height: u32, actual_len: usize) -> (r: Result<(), ViewerError>)
    ensures
        (r is Ok) == (width * height * 4 <= u32::MAX && actual_len == width * height * 4),
        r is Err ==> r == Err::<(), ViewerError>(
            (ViewerError::InvalidTextureData { width, height, actual_len }),
        ),
{
    let invalid = ViewerError::InvalidTextureData { width, height, actual_len };
    let pixels = match width.checked_mul(height) {
        Some(p) => p,
        None => return Err(invalid),
    };
    let expected = match pixels.checked_mul(4) {
        Some(b) => b,
        None => return Err(invalid),
    };
    if actual_len as u64 != expected as u64 {
        return Err(invalid);
    }
    Ok(())
}

/// The pixels of the generated default skin: a 64x64 texture, transparent
/// except for a face, a shirt, skin-coloured arms, trousers and a partly
/// transparent outer layer, painted in this order.
pub open spec fn default_skin_rgba() -> Seq<u8> {
    let s = Seq::new(16384, |i: int| 0u8);
    let s = fill_rect_spec(s, 64, 8, 8, 8, 8, color4(210, 150, 105, 255));
    let s = fill_rect_spec(s, 64, 8, 8, 2, 2, color4(60, 40, 35, 255));
    let s = fill_rect_spec(s, 64, 14, 8, 2, 2, color4(60, 40, 35, 255));
    let s = fill_rect_spec(s, 64, 10, 14, 4, 1, color4(120, 45, 45, 255));
    let s = fill_rect_spec(s, 64, 20, 20, 8, 12, color4(45, 100, 190, 255));
    let s = fill_rect_spec(s, 64, 16, 20, 4, 12, color4(45, 100, 190, 255));
    let s = fill_rect_spec(s, 64, 28, 20, 4, 12, color4(45, 100, 190, 255));
    let s = fill_rect_spec(s, 64, 32, 20, 8, 12, color4(45, 100, 190, 255));
    let s = fill_rect_spec(s, 64, 44, 20, 4, 12, color4(210, 150, 105, 255));
    let s = fill_rect_spec(s, 64, 36, 52, 4, 12, color4(210, 150, 105, 255));
    let s = fill_rect_spec(s, 64, 4, 20, 4, 12, color4(45, 65, 150, 255));
    let s = fill_rect_spec(s, 64, 20, 52, 4, 12, color4(45, 65, 150, 255));
    let s = fill_rect_spec(s, 64, 40, 8, 8, 8, color4(30, 30, 30, 180));
    let s = fill_rect_spec(s, 64, 20, 36, 8, 12, color4(20, 30, 70, 100));
    let s = fill_rect_spec(s, 64, 44, 36, 4, 12, color4(20, 30, 70, 90));
    let s = fill_rect_spec(s, 64, 52, 52, 4, 12, color4(20, 30, 70, 90));
    let s = fill_rect_spec(s, 64, 4, 36, 4, 12, color4(20, 20, 90, 90));
    fill_rect_spec(s, 64, 4, 52, 4, 12, color4(20, 20, 90, 90))
}

proof fn lemma_cover_64(x: int, y: int, w: int, h: int, px: int, py: int)
    requires
        0 <= x,
        0 <= w,
        x + w <= 64,
        0 <= px < 64,
    ensures
        rect_covers(64, x, y, w, h, py * 64 + px) <==> (y <= py < y + h && x <= px < x + w),
{
    if rect_covers(64, x, y, w, h, py * 64 + px) {
        let (qy, qx) = choose|qy: int, qx: int|
            y <= qy < y + h && x <= qx < x + w && py * 64 + px == #[trigger] (qy * 64 + qx);
        assert(qy == py && qx == px) by (nonlinear_arith)
            requires
                qy * 64 + qx == py * 64 + px,
                0 <= qx < 64,
                0 <= px < 64,
        ;
    }
    if y <= py < y + h && x <= px < x + w {
        assert(py * 64 + px == py * 64 + px);
    }
}

/// The alpha byte of pixel `(px, py)` after a rectangle is painted on a 64x64
/// buffer: the colour's alpha inside the rectangle, the old alpha outside.
proof fn lemma_fill_alpha(s: Seq<u8>, x: int, y: int, w: int, h: int, color: Seq<u8>, px: int, py: int)
    requires
        s.len() == 16384,
        color.len() == 4,
        0 <= x,
        0 <= w,
        x + w <= 64,
        0 <= px < 64,
        0 <= py < 64,
    ensures
        fill_rect_spec(s, 64, x, y, w, h, color).len() == 16384,
        fill_rect_spec(s, 64, x, y, w, h, color)[(py * 64 + px) * 4 + 3] == if y <= py < y + h && x
            <= px < x + w {
            color[3]
        } else {
            s[(py * 64 + px) * 4 + 3]
        },
{
    let i = (py * 64 + px) * 4 + 3;
    assert(i / 4 == py * 64 + px && i % 4 == 3);
    lemma_cover_64(x, y, w, h, px, py);
}

/// The generated skin is opaque on the front of every base part of the model:
/// each pixel of the front face of the head, body, arms and legs has alpha 255.
pub proof fn lemma_default_skin_base_fronts_opaque(i: int, px: int, py: int)
    requires
        0 <= i < 6,
        model_layout_spec(SkinFormat::Modern64x64)[i].uvs.front.x <= px
            < model_layout_spec(SkinFormat::Modern64x64)[i].uvs.front.x
            + model_layout_spec(SkinFormat::Modern64x64)[i].uvs.front.w,
        model_layout_spec(SkinFormat::Modern64x64)[i].uvs.front.y <= py
            < model_layout_spec(SkinFormat::Modern64x64)[i].uvs.front.y
            + model_layout_spec(SkinFormat::Modern64x64)[i].uvs.front.h,
    ensures
        default_skin_rgba()[(py * 64 + px) * 4 + 3] == 255,
{
    let f = model_layout_spec(SkinFormat::Modern64x64)[i].uvs.front;
    assert(0 <= px < 64 && 0 <= py < 64);
    let s0 = Seq::new(16384, |i: int| 0u8);
    let s1 = fill_rect_spec(s0, 64, 8, 8, 8, 8, color4(210, 150, 105, 255));
    let s2 = fill_rect_spec(s1, 64, 8, 8, 2, 2, color4(60, 40, 35, 255));
    let s3 = fill_rect_spec(s2, 64, 14, 8, 2, 2, color4(60, 40, 35, 255));
    let s4 = fill_rect_spec(s3, 64, 10, 14, 4, 1, color4(120, 45, 45, 255));
    let s5 = fill_rect_spec(s4, 64, 20, 20, 8, 12, color4(45, 100, 190, 255));
    let s6 = fill_rect_spec(s5, 64, 16, 20, 4, 12, color4(45, 100, 190, 255));
    let s7 = fill_rect_spec(s6, 64, 28, 20, 4, 12, color4(45, 100, 190, 255));
    let s8 = fill_rect_spec(s7, 64, 32, 20, 8, 12, color4(45, 100, 190, 255));
    let s9 = fill_rect_spec(s8, 64, 44, 20, 4, 12, color4(210, 150, 105, 255));
    let s10 = fill_rect_spec(s9, 64, 36, 52, 4, 12, color4(210, 150, 105, 255));
    let s11 = fill_rect_spec(s10, 64, 4, 20, 4, 12, color4(45, 65, 150, 255));
    let s12 = fill_rect_spec(s11, 64, 20, 52, 4, 12, color4(45, 65, 150, 255));
    let s13 = fill_rect_spec(s12, 64, 40, 8, 8, 8, color4(30, 30, 30, 180));
    let s14 = fill_rect_spec(s13, 64, 20, 36, 8, 12, color4(20, 30, 70, 100));
    let s15 = fill_rect_spec(s14, 64, 44, 36, 4, 12, color4(20, 30, 70, 90));
    let s16 = fill_rect_spec(s15, 64, 52, 52, 4, 12, color4(20, 30, 70, 90));
    let s17 = fill_rect_spec(s16, 64, 4, 36, 4, 12, color4(20, 20, 90, 90));
    let s18 = fill_rect_spec(s17, 64, 4, 52, 4, 12, color4(20, 20, 90, 90));
    assert(default_skin_rgba() == s18);
    lemma_fill_alpha(s0, 8, 8, 8, 8, color4(210, 150, 105, 255), px, py);
    lemma_fill_alpha(s1, 8, 8, 2, 2, color4(60, 40, 35, 255), px, py);
    lemma_fill_alpha(s2, 14, 8, 2, 2, color4(60, 40, 35, 255), px, py);
    lemma_fill_alpha(s3, 10, 14, 4, 1, color4(120, 45, 45, 255), px, py);
    lemma_fill_alpha(s4, 20, 20, 8, 12, color4(45, 100, 190, 255), px, py);
    lemma_fill_alpha(s5, 16, 20, 4, 12, color4(45, 100, 190, 255), px, py);
    lemma_fill_alpha(s6, 28, 20, 4, 12, color4(45, 100, 190, 255), px, py);
    lemma_fill_alpha(s7, 32, 20, 8, 12, color4(45, 100, 190, 255), px, py);
    lemma_fill_alpha(s8, 44, 20, 4, 12, color4(210, 150, 105, 255), px, py);
    lemma_fill_alpha(s9, 36, 52, 4, 12, color4(210, 150, 105, 255), px, py);
    lemma_fill_alpha(s10, 4, 20, 4, 12, color4(45, 65, 150, 255), px, py);
    lemma_fill_alpha(s11, 20, 52, 4, 12, color4(45, 65, 150, 255), px, py);
    lemma_fill_alpha(s12, 40, 8, 8, 8, color4(30, 30, 30, 180), px, py);
    lemma_fill_alpha(s13, 20, 36, 8, 12, color4(20, 30, 70, 100), px, py);
    lemma_fill_alpha(s14, 44, 36, 4, 12, color4(20, 30, 70, 90), px, py);
    lemma_fill_alpha(s15, 52, 52, 4, 12, color4(20, 30, 70, 90), px, py);
    lemma_fill_alpha(s16, 4, 36, 4, 12, color4(20, 20, 90, 90), px, py);
    lemma_fill_alpha(s17, 4, 52, 4, 12, color4(20, 20, 90, 90), px, py);
}

fn paint(rgba: &mut Vec<u8>, overlay: bool, x: usize, y: usize, w: usize, h: usize, r: u8, g: u8, b: u8, a: u8)
    requires
        x + w <= 64,
        y + h <= 64,
        w > 0,
        h > 0,
        old(rgba)@.len() == 16384,
    ensures
        final(rgba)@ == fill_rect_spec(
            old(rgba)@,
            64,
            x as int,
            y as int,
            w as int,
            h as int,
            color4(r, g, b, a),
        ),
{
    let color: [u8; 4] = [r, g, b, a];
    assert(color@ =~= color4(r, g, b, a));
    assert(((y + h - 1) * 64 + x + w - 1) * 4 + 4 <= 16384) by (nonlinear_arith)
        requires
            x + w <= 64,
            y + h <= 64,
            w > 0,
            h > 0,
    ;
    if overlay {
        fill_overlay_rect(rgba, 64, x, y, w, h, color);
    } else {
        fill_rect(rgba, 64, x, y, w, h, color);
    }
}

/// The generated skin the viewer shows before any skin is loaded.
pub fn default_skin() -> (skin: SkinImage)
    ensures
        skin.width == 64,
        skin.height == 64,
        skin.format == SkinFormat::Modern64x64,
        skin.model == ModelVariant::Classic,
        skin.rgba@ == default_skin_rgba(),
{
    let width: usize = 64;
    let height: usize = 64;
    let mut rgba: Vec<u8> = Vec::new();
    let mut i: usize = 0;
    while i < width * height * 4
        invariant
            width == 64,
            height == 64,
            i <= 16384,
            rgba@.len() == i,
            forall|j: int| 0 <= j < i ==> rgba@[j] == 0u8,
        decreases 16384 - i,
    {
        rgba.push(0);
        i = i + 1;
    }
    assert(rgba@ =~= Seq::new(16384, |i: int| 0u8));
    paint(&mut rgba, false, 8, 8, 8, 8, 210, 150, 105, 255);
    paint(&mut rgba, false, 8, 8, 2, 2, 60, 40, 35, 255);
    paint(&mut rgba, false, 14, 8, 2, 2, 60, 40, 35, 255);
    paint(&mut rgba, false, 10, 14, 4, 1, 120, 45, 45, 255);

    paint(&mut rgba, false, 20, 20, 8, 12, 45, 100, 190, 255);
    paint(&mut rgba, false, 16, 20, 4, 12, 45, 100, 190, 255);
    paint(&mut rgba, false, 28, 20, 4, 12, 45, 100, 190, 255);
    paint(&mut rgba, false, 32, 20, 8, 12, 45, 100, 190, 255);

    paint(&mut rgba, false, 44, 20, 4, 12, 210, 150, 105, 255);
    paint(&mut rgba, false, 36, 52, 4, 12, 210, 150, 105, 255);
    paint(&mut rgba, false, 4, 20, 4, 12, 45, 65, 150, 255);
    paint(&mut rgba, false, 20, 52, 4, 12, 45, 65, 150, 255);

    paint(&mut rgba, true, 40, 8, 8, 8, 30, 30, 30, 180);
    paint(&mut rgba, true, 20, 36, 8, 12, 20, 30, 70, 100);
    paint(&mut rgba, true, 44, 36, 4, 12, 20, 30, 70, 90);
    paint(&mut rgba, true, 52, 52, 4, 12, 20, 30, 70, 90);
    paint(&mut rgba, true, 4, 36, 4, 12, 20, 20, 90, 90);
    paint(&mut rgba, true, 4, 52, 4, 12, 20, 20, 90, 90);

    SkinImage {
        width: width as u32,
        height: height as u32,
        format: SkinFormat::Modern64x64,
        model: ModelVariant::Classic,
        rgba,
    }
}

} // verus!
