use vstd::prelude::*;

verus! {

/// Left edge of the base face in a skin texture.
pub const HEAD_X: u32 = 8;

/// Top edge of the base face in a skin texture.
pub const HEAD_Y: u32 = 8;

/// Left edge of the helmet (hat) layer over the face.
pub const OVERLAY_X: u32 = 40;

/// Top edge of the helmet (hat) layer over the face.
pub const OVERLAY_Y: u32 = 8;

/// Side of the face square, in skin pixels.
pub const HEAD_SIZE: u32 = 8;

/// One RGBA pixel with 8 bits per channel.
#[derive(Debug, Clone, Copy, PartialEq, Eq, Structural)]
pub struct Pixel {
    pub r: u8,
    pub g: u8,
    pub b: u8,
    pub a: u8,
}

/// Alpha of the "source over" composite of `src_a` over `dst_a`, rounded.
pub open spec fn blend_alpha(src_a: int, dst_a: int) -> int {
    src_a + (dst_a * (255 - src_a) + 127) / 255
}

/// One colour channel of the composite, rounded and capped at 255.
pub open spec fn blend_channel(src: int, dst: int, src_a: int, dst_a: int, out_a: int) -> int {
    let premul = src * src_a * 255 + dst * dst_a * (255 - src_a);
    let value = (premul + (out_a * 255) / 2) / (out_a * 255);
    if value > 255 {
        255
    } else {
        value
    }
}

/// `top` composited over `bottom` with straight (non-premultiplied) alpha.
pub open spec fn alpha_blend_spec(bottom: Pixel, top: Pixel) -> Pixel {
    if top.a == 0 {
        bottom
    } else if top.a == 255 {
        top
    } else {
        let out_a = blend_alpha(top.a as int, bottom.a as int);
        if out_a == 0 {
            Pixel { r: 0, g: 0, b: 0, a: 0 }
        } else {
            Pixel {
                r: blend_channel(top.r as int, bottom.r as int, top.a as int, bottom.a as int, out_a) as u8,
                g: blend_channel(top.g as int, bottom.g as int, top.a as int, bottom.a as int, out_a) as u8,
                b: blend_channel(top.b as int, bottom.b as int, top.a as int, bottom.a as int, out_a) as u8,
                a: (if out_a > 255 { 255 } else { out_a }) as u8,
            }
        }
    }
}

/// Offset of the first byte of pixel `(x, y)` in an RGBA buffer `width` pixels wide.
pub open spec fn byte_offset(width: int, x: int, y: int) -> int {
    (y * width + x) * 4
}

pub open spec fn alpha_at(rgba: Seq<u8>, width: int, x: int, y: int) -> u8 {
    rgba[byte_offset(width, x, y) + 3]
}

/// The 8x8 block whose top-left pixel is `(x0, y0)`, as a row-major RGBA buffer.
pub open spec fn crop8(rgba: Seq<u8>, width: int, x0: int, y0: int) -> Seq<u8> {
    Seq::new(256, |i: int| rgba[byte_offset(width, x0 + (i / 4) % 8, y0 + (i / 4) / 8) + i % 4])
}

/// Pixel number `p` of an RGBA buffer.
pub open spec fn pixel_of(s: Seq<u8>, p: int) -> Pixel {
    Pixel { r: s[4 * p], g: s[4 * p + 1], b: s[4 * p + 2], a: s[4 * p + 3] }
}

pub open spec fn channel(p: Pixel, c: int) -> u8 {
    if c == 0 {
        p.r
    } else if c == 1 {
        p.g
    } else if c == 2 {
        p.b
    } else {
        p.a
    }
}

/// An 8x8 `overlay` composited pixel by pixel over an 8x8 `base`.
pub open spec fn composite8(base: Seq<u8>, overlay: Seq<u8>) -> Seq<u8> {
    Seq::new(
        256,
        |i: int| channel(alpha_blend_spec(pixel_of(base, i / 4), pixel_of(overlay, i / 4)), i % 4),
    )
}

/// Some pixel of the helmet square, within the image width, is not fully transparent.
pub open spec fn overlay_has_visible(rgba: Seq<u8>, width: int) -> bool {
    exists|x: int, y: int|
        40 <= x < 48 && x < width && 8 <= y < 16 && #[trigger] alpha_at(rgba, width, x, y) != 0
}

/// Some pixel of the first helmet row, within the image width, is not fully transparent.
pub open spec fn overlay_row_has_visible(rgba: Seq<u8>, width: int) -> bool {
    exists|x: int| 40 <= x < 48 && x < width && #[trigger] alpha_at(rgba, width, x, 8) != 0
}

/// Pixel `(x, y)` of a `width` x `height` image lies inside its buffer.
pub proof fn lemma_offset_in_image(x: int, y: int, width: int, height: int)
    requires
        0 <= x < width,
        0 <= y < height,
    ensures
        0 <= y * width + x < width * height,
        0 <= y * width,
        byte_offset(width, x, y) + 3 < width * height * 4,
{
    assert(0 <= y * width) by (nonlinear_arith)
        requires
            0 <= y,
            0 <= width,
    ;
    assert(y * width + x < width * height) by (nonlinear_arith)
        requires
            0 <= x < width,
            0 <= y < height,
    ;
}

fn blend_channel_exec(src: u32, dst: u32, src_a: u32, dst_a: u32, out_a: u32) -> (r: u8)
    requires
        src <= 255,
        dst <= 255,
        1 <= src_a <= 254,
        dst_a <= 255,
        1 <= out_a <= 510,
    ensures
        r == blend_channel(src as int, dst as int, src_a as int, dst_a as int, out_a as int),
{
    assert(src * src_a <= 255 * 255) by (nonlinear_arith)
        requires
            src <= 255,
            src_a <= 255,
    ;
    assert(dst * dst_a <= 255 * 255) by (nonlinear_arith)
        requires
            dst <= 255,
            dst_a <= 255,
    ;
    assert(src * src_a * 255 <= 255 * 255 * 255) by (nonlinear_arith)
        requires
            src * src_a <= 255 * 255,
    ;
    assert(dst * dst_a * (255 - src_a) <= 255 * 255 * 255) by (nonlinear_arith)
        requires
            dst * dst_a <= 255 * 255,
            255 - src_a <= 255,
            0 <= 255 - src_a,
            0 <= dst * dst_a,
    ;
    let premul = src * src_a * 255 + dst * dst_a * (255 - src_a);
    let denom = out_a * 255;
    let value = (premul + (denom / 2)) / denom;
    if value > 255 {
        255
    } else {
        value as u8
    }
}

/// Composites `top` over `bottom` with straight alpha, rounding each channel.
pub fn alpha_blend(bottom: Pixel, top: Pixel) -> (r: Pixel)
    ensures
        r == alpha_blend_spec(bottom, top),
{
    let src_a = top.a as u32;
    if src_a == 0 {
        return bottom;
    }
    if src_a == 255 {
        return top;
    }
    let dst_a = bottom.a as u32;
    assert(dst_a * (255 - src_a) <= 255 * 255) by (nonlinear_arith)
        requires
            dst_a <= 255,
            255 - src_a <= 255,
            0 <= 255 - src_a,
    ;
    let out_a = src_a + ((dst_a * (255 - src_a) + 127) / 255);
    if out_a == 0 {
        return Pixel { r: 0, g: 0, b: 0, a: 0 };
    }
    let r = blend_channel_exec(top.r as u32, bottom.r as u32, src_a, dst_a, out_a);
    let g = blend_channel_exec(top.g as u32, bottom.g as u32, src_a, dst_a, out_a);
    let b = blend_channel_exec(top.b as u32, bottom.b as u32, src_a, dst_a, out_a);
    let a: u8 = if out_a > 255 {
        255
    } else {
        out_a as u8
    };
    Pixel { r, g, b, a }
}

/// Copies the 8x8 block at `(x0, y0)` out of a `width` x `height` RGBA image.
pub fn crop8_exec(rgba: &Vec<u8>, width: u32, height: u32, x0: u32, y0: u32) -> (r: Vec<u8>)
    requires
        x0 + 8 <= width,
        y0 + 8 <= height,
        rgba@.len() >= width * height * 4,
    ensures
        r@ == crop8(rgba@, width as int, x0 as int, y0 as int),
{
    let mut out: Vec<u8> = Vec::with_capacity(256);
    let mut i: usize = 0;
    while i < 256
        invariant
            x0 + 8 <= width,
            y0 + 8 <= height,
            rgba@.len() >= width * height * 4,
            i <= 256,
            out@.len() == i,
            forall|j: int|
                0 <= j < i ==> #[trigger] out@[j] == crop8(
                    rgba@,
                    width as int,
                    x0 as int,
                    y0 as int,
                )[j],
        decreases 256 - i,
    {
        let p = i / 4;
        let x = x0 as usize + p % 8;
        let y = y0 as usize + p / 8;
        let len = rgba.len();
        proof {
            lemma_offset_in_image(x as int, y as int, width as int, height as int);
            assert(y * width + x < len);
        }
        let off = (y * (width as usize) + x) * 4 + i % 4;
        out.push(rgba[off]);
        i = i + 1;
    }
    assert(out@ =~= crop8(rgba@, width as int, x0 as int, y0 as int));
    out
}

/// Composites an 8x8 `overlay` over an 8x8 `base`, pixel by pixel.
pub fn composite8_exec(base: &Vec<u8>, overlay: &Vec<u8>) -> (r: Vec<u8>)
    requires
        base@.len() == 256,
        overlay@.len() == 256,
    ensures
        r@ == composite8(base@, overlay@),
{
    let mut out: Vec<u8> = Vec::with_capacity(256);
    let mut p: usize = 0;
    while p < 64
        invariant
            base@.len() == 256,
            overlay@.len() == 256,
            p <= 64,
            out@.len() == 4 * p,
            forall|j: int|
                0 <= j < 4 * p ==> #[trigger] out@[j] == composite8(base@, overlay@)[j],
        decreases 64 - p,
    {
        let bottom = Pixel {
            r: base[4 * p],
            g: base[4 * p + 1],
            b: base[4 * p + 2],
            a: base[4 * p + 3],
        };
        let top = Pixel {
            r: overlay[4 * p],
            g: overlay[4 * p + 1],
            b: overlay[4 * p + 2],
            a: overlay[4 * p + 3],
        };
        let blended = alpha_blend(bottom, top);
        assert(bottom == pixel_of(base@, p as int));
        assert(top == pixel_of(overlay@, p as int));
        out.push(blended.r);
        out.push(blended.g);
        out.push(blended.b);
        out.push(blended.a);
        proof {
            assert forall|j: int| 0 <= j < 4 * (p + 1) implies #[trigger] out@[j] == composite8(
                base@,
                overlay@,
            )[j] by {
                if j >= 4 * p {
                    assert(j / 4 == p);
                    assert(j % 4 == j - 4 * p);
                }
            }
        }
        p = p + 1;
    }
    assert(out@ =~= composite8(base@, overlay@));
    out
}

/// Whether any pixel of the helmet square (columns 40..48, rows 8..16) that
/// lies inside the image is not fully transparent.
pub fn has_visible_overlay(rgba: &Vec<u8>, width: u32, height: u32) -> (b: bool)
    requires
        height >= 16,
        rgba@.len() >= width * height * 4,
    ensures
        b == overlay_has_visible(rgba@, width as int),
{
    let mut y: u32 = OVERLAY_Y;
    while y < OVERLAY_Y + HEAD_SIZE
        invariant
            height >= 16,
            rgba@.len() >= width * height * 4,
            8 <= y <= 16,
            forall|xx: int, yy: int|
                40 <= xx < 48 && xx < width && 8 <= yy < y ==> #[trigger] alpha_at(
                    rgba@,
                    width as int,
                    xx,
                    yy,
                ) == 0,
        decreases 16 - y,
    {
        let mut x: u32 = OVERLAY_X;
        while x < OVERLAY_X + HEAD_SIZE
            invariant
                height >= 16,
                rgba@.len() >= width * height * 4,
                8 <= y < 16,
                40 <= x <= 48,
                forall|xx: int, yy: int|
                    40 <= xx < 48 && xx < width && 8 <= yy < y ==> #[trigger] alpha_at(
                        rgba@,
                        width as int,
                        xx,
                        yy,
                    ) == 0,
                forall|xx: int|
                    40 <= xx < x && xx < width ==> #[trigger] alpha_at(rgba@, width as int, xx, y as int)
                        == 0,
            decreases 48 - x,
        {
            if x < width {
                let len = rgba.len();
                proof {
                    lemma_offset_in_image(x as int, y as int, width as int, height as int);
                    assert(y * width + x < len);
                }
                let off = ((y as usize) * (width as usize) + (x as usize)) * 4 + 3;
                if rgba[off] != 0 {
                    assert(alpha_at(rgba@, width as int, x as int, y as int) != 0);
                    return true;
                }
            }
            x = x + 1;
        }
        y = y + 1;
    }
    false
}

/// A transparent top pixel leaves the bottom pixel unchanged, and an opaque one
/// replaces it.
pub proof fn lemma_blend_extremes(bottom: Pixel, top: Pixel)
    ensures
        top.a == 0 ==> alpha_blend_spec(bottom, top) == bottom,
        top.a == 255 ==> alpha_blend_spec(bottom, top) == top,
{
}

/// Compositing never makes a pixel more transparent than either input, and the
/// composite alpha never needs the 255 cap.
pub proof fn lemma_blend_alpha_bounds(bottom: Pixel, top: Pixel)
    ensures
        alpha_blend_spec(bottom, top).a >= top.a,
        alpha_blend_spec(bottom, top).a >= bottom.a,
        0 < top.a < 255 ==> blend_alpha(top.a as int, bottom.a as int) <= 255,
{
    if 0 < top.a < 255 {
        let sa = top.a as int;
        let da = bottom.a as int;
        let x = da * (255 - sa) + 127;
        let q = x / 255;
        assert(0 <= da * (255 - sa) <= 255 * (255 - sa)) by (nonlinear_arith)
            requires
                0 <= da <= 255,
                0 < sa < 255,
        ;
        assert(q <= 255 - sa);
        assert(q * 255 > x - 255);
        assert(da * sa <= 255 * sa) by (nonlinear_arith)
            requires
                0 <= da <= 255,
                0 < sa,
        ;
        assert(da * (255 - sa) == 255 * da - da * sa) by (nonlinear_arith);
        if q < da - sa {
            assert(q * 255 <= (da - sa - 1) * 255) by (nonlinear_arith)
                requires
                    q <= da - sa - 1,
            ;
        }
        assert(sa + q >= da);
    }
}

} // verus!
