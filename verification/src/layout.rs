use vstd::prelude::*;

use crate::skin::SkinFormat;
use crate::viewer::BodyPart;

verus! {

/// A rectangle of texture pixels.
#[derive(Debug, Clone, Copy, PartialEq, Eq, Structural)]
pub struct PixelRect {
    pub x: u32,
    pub y: u32,
    pub w: u32,
    pub h: u32,
}

/// The texture rectangles of the six faces of a cuboid.
#[derive(Debug, Clone, Copy, PartialEq, Eq, Structural)]
pub struct FaceRects {
    pub top: PixelRect,
    pub bottom: PixelRect,
    pub right: PixelRect,
    pub front: PixelRect,
    pub left: PixelRect,
    pub back: PixelRect,
}

/// A point of model space, in skin pixels.
#[derive(Debug, Clone, Copy, PartialEq, Eq, Structural)]
pub struct Point3 {
    pub x: i32,
    pub y: i32,
    pub z: i32,
}

/// A cuboid's width, height and depth, in skin pixels.
#[derive(Debug, Clone, Copy, PartialEq, Eq, Structural)]
pub struct Size3 {
    pub w: u32,
    pub h: u32,
    pub d: u32,
}

/// One cuboid of the player model: which part and layer it is, where it
/// stands, the joint it turns about, where its faces are on the skin, and how
/// much it is scaled, in thirty-seconds (32 draws it at its size).
#[derive(Debug, Clone, Copy, PartialEq, Eq, Structural)]
pub struct PartLayout {
    pub part: BodyPart,
    pub overlay: bool,
    pub center: Point3,
    pub size: Size3,
    pub pivot: Point3,
    pub uvs: FaceRects,
    pub inflate_32nds: u32,
}

pub open spec fn rect(x: u32, y: u32, w: u32, h: u32) -> PixelRect {
    PixelRect { x, y, w, h }
}

/// The Minecraft box layout: a `w` x `h` x `d` cuboid whose texture starts at
/// `(u, v)` has its top and bottom in the first `d` rows, after a `d`-wide
/// gap, and its right, front, left and back faces side by side below them.
pub open spec fn box_faces_spec(u: u32, v: u32, w: u32, h: u32, d: u32) -> FaceRects {
    FaceRects {
        top: rect((u + d) as u32, v, w, d),
        bottom: rect((u + d + w) as u32, v, w, d),
        right: rect(u, (v + d) as u32, d, h),
        front: rect((u + d) as u32, (v + d) as u32, w, h),
        left: rect((u + d + w) as u32, (v + d) as u32, d, h),
        back: rect((u + d + w + d) as u32, (v + d) as u32, w, h),
    }
}

/// Computes the face rectangles of a cuboid in the Minecraft box layout.
pub fn box_faces(u: u32, v: u32, w: u32, h: u32, d: u32) -> (f: FaceRects)
    requires
        u + 2 * d + 2 * w <= u32::MAX,
        v + d + h <= u32::MAX,
    ensures
        f == box_faces_spec(u, v, w, h, d),
{
    FaceRects {
        top: PixelRect { x: u + d, y: v, w, h: d },
        bottom: PixelRect { x: u + d + w, y: v, w, h: d },
        right: PixelRect { x: u, y: v + d, w: d, h },
        front: PixelRect { x: u + d, y: v + d, w, h },
        left: PixelRect { x: u + d + w, y: v + d, w: d, h },
        back: PixelRect { x: u + d + w + d, y: v + d, w, h },
    }
}

pub open spec fn point(x: i32, y: i32, z: i32) -> Point3 {
    Point3 { x, y, z }
}

/// A cuboid whose texture starts at `(u, v)`.
pub open spec fn layout_spec(
    part: BodyPart,
    overlay: bool,
    u: u32,
    v: u32,
    center: Point3,
    size: Size3,
    pivot: Point3,
    inflate_32nds: u32,
) -> PartLayout {
    PartLayout {
        part,
        overlay,
        center,
        size,
        pivot,
        uvs: box_faces_spec(u, v, size.w, size.h, size.d),
        inflate_32nds,
    }
}

fn layout(
    part: BodyPart,
    overlay: bool,
    u: u32,
    v: u32,
    center: Point3,
    size: Size3,
    pivot: Point3,
    inflate_32nds: u32,
) -> (l: PartLayout)
    requires
        u <= 64,
        v <= 64,
        size.w <= 16,
        size.h <= 16,
        size.d <= 16,
    ensures
        l == layout_spec(part, overlay, u, v, center, size, pivot, inflate_32nds),
{
    PartLayout {
        part,
        overlay,
        center,
        size,
        pivot,
        uvs: box_faces(u, v, size.w, size.h, size.d),
        inflate_32nds,
    }
}

pub open spec fn head_size() -> Size3 {
    Size3 { w: 8, h: 8, d: 8 }
}

pub open spec fn body_size() -> Size3 {
    Size3 { w: 8, h: 12, d: 4 }
}

pub open spec fn limb_size() -> Size3 {
    Size3 { w: 4, h: 12, d: 4 }
}

/// Where a part's base layer starts on the skin. Legacy 64x32 skins have no
/// texture of their own for the left limbs, which reuse the right limbs'.
pub open spec fn base_origin(part: BodyPart, format: SkinFormat) -> (u32, u32) {
    match part {
        BodyPart::Head => (0, 0),
        BodyPart::Body => (16, 16),
        BodyPart::RightArm => (40, 16),
        BodyPart::LeftArm => if format == SkinFormat::Modern64x64 {
            (32, 48)
        } else {
            (40, 16)
        },
        BodyPart::RightLeg => (0, 16),
        BodyPart::LeftLeg => if format == SkinFormat::Modern64x64 {
            (16, 48)
        } else {
            (0, 16)
        },
    }
}

/// Where a part's outer layer (hat, jacket, sleeves, trousers) starts on a
/// 64x64 skin.
pub open spec fn overlay_origin(part: BodyPart) -> (u32, u32) {
    match part {
        BodyPart::Head => (32, 0),
        BodyPart::Body => (16, 32),
        BodyPart::RightArm => (40, 32),
        BodyPart::LeftArm => (48, 48),
        BodyPart::RightLeg => (0, 32),
        BodyPart::LeftLeg => (0, 48),
    }
}

/// Size, center and joint of each part, with the feet at height 0.
pub open spec fn part_geometry(part: BodyPart) -> (Size3, Point3, Point3) {
    match part {
        BodyPart::Head => (head_size(), point(0, 24, 0), point(0, 20, 0)),
        BodyPart::Body => (body_size(), point(0, 14, 0), point(0, 14, 0)),
        BodyPart::RightArm => (limb_size(), point(-6i32, 14, 0), point(-6i32, 20, 0)),
        BodyPart::LeftArm => (limb_size(), point(6, 14, 0), point(6, 20, 0)),
        BodyPart::RightLeg => (limb_size(), point(-2i32, 6, 0), point(-2i32, 12, 0)),
        BodyPart::LeftLeg => (limb_size(), point(2, 6, 0), point(2, 12, 0)),
    }
}

/// How much the outer layer of a part is scaled: the hat by 34/32, the other
/// outer parts by 33/32; base parts are drawn at their size.
pub open spec fn inflate_for(part: BodyPart, overlay: bool) -> u32 {
    if !overlay {
        32
    } else if part == BodyPart::Head {
        34
    } else {
        33
    }
}

/// The cuboid of a part's base layer, or of its outer layer.
pub open spec fn part_layout_spec(part: BodyPart, overlay: bool, format: SkinFormat) -> PartLayout {
    let (size, center, pivot) = part_geometry(part);
    let origin = if overlay {
        overlay_origin(part)
    } else {
        base_origin(part, format)
    };
    layout_spec(part, overlay, origin.0, origin.1, center, size, pivot, inflate_for(part, overlay))
}

/// The parts in model order.
pub open spec fn part_order() -> Seq<BodyPart> {
    seq![
        BodyPart::Head,
        BodyPart::Body,
        BodyPart::RightArm,
        BodyPart::LeftArm,
        BodyPart::RightLeg,
        BodyPart::LeftLeg,
    ]
}

/// The cuboids of the model for a skin format: the six base parts in model
/// order, then the six outer parts in the same order for a 64x64 skin, or
/// only the hat for a legacy 64x32 skin.
pub open spec fn model_layout_spec(format: SkinFormat) -> Seq<PartLayout> {
    let base = Seq::new(6, |i: int| part_layout_spec(part_order()[i], false, format));
    if format == SkinFormat::Modern64x64 {
        base + Seq::new(6, |i: int| part_layout_spec(part_order()[i], true, format))
    } else {
        base.push(part_layout_spec(BodyPart::Head, true, format))
    }
}

fn part_layout(part: BodyPart, overlay: bool, format: SkinFormat) -> (l: PartLayout)
    ensures
        l == part_layout_spec(part, overlay, format),
{
    let limb = Size3 { w: 4, h: 12, d: 4 };
    let (size, center, pivot) = match part {
        BodyPart::Head => (
            Size3 { w: 8, h: 8, d: 8 },
            Point3 { x: 0, y: 24, z: 0 },
            Point3 { x: 0, y: 20, z: 0 },
        ),
        BodyPart::Body => (
            Size3 { w: 8, h: 12, d: 4 },
            Point3 { x: 0, y: 14, z: 0 },
            Point3 { x: 0, y: 14, z: 0 },
        ),
        BodyPart::RightArm => (limb, Point3 { x: -6, y: 14, z: 0 }, Point3 { x: -6, y: 20, z: 0 }),
        BodyPart::LeftArm => (limb, Point3 { x: 6, y: 14, z: 0 }, Point3 { x: 6, y: 20, z: 0 }),
        BodyPart::RightLeg => (limb, Point3 { x: -2, y: 6, z: 0 }, Point3 { x: -2, y: 12, z: 0 }),
        BodyPart::LeftLeg => (limb, Point3 { x: 2, y: 6, z: 0 }, Point3 { x: 2, y: 12, z: 0 }),
    };
    let modern = format == SkinFormat::Modern64x64;
    let (u, v): (u32, u32) = if overlay {
        match part {
            BodyPart::Head => (32, 0),
            BodyPart::Body => (16, 32),
            BodyPart::RightArm => (40, 32),
            BodyPart::LeftArm => (48, 48),
            BodyPart::RightLeg => (0, 32),
            BodyPart::LeftLeg => (0, 48),
        }
    } else {
        match part {
            BodyPart::Head => (0, 0),
            BodyPart::Body => (16, 16),
            BodyPart::RightArm => (40, 16),
            BodyPart::LeftArm => if modern {
                (32, 48)
            } else {
                (40, 16)
            },
            BodyPart::RightLeg => (0, 16),
            BodyPart::LeftLeg => if modern {
                (16, 48)
            } else {
                (0, 16)
            },
        }
    };
    let inflate: u32 = if !overlay {
        32
    } else if part == BodyPart::Head {
        34
    } else {
        33
    };
    layout(part, overlay, u, v, center, size, pivot, inflate)
}

/// The cuboids of the player model for a skin format, in drawing order.
pub fn model_layout(format: SkinFormat) -> (layouts: Vec<PartLayout>)
    ensures
        layouts@ == model_layout_spec(format),
{
    let parts = [
        BodyPart::Head,
        BodyPart::Body,
        BodyPart::RightArm,
        BodyPart::LeftArm,
        BodyPart::RightLeg,
        BodyPart::LeftLeg,
    ];
    assert(parts@ == part_order());
    let mut layouts: Vec<PartLayout> = Vec::new();
    let mut i: usize = 0;
    while i < 6
        invariant
            i <= 6,
            parts@ == part_order(),
            layouts@ == Seq::new(i as nat, |j: int| part_layout_spec(part_order()[j], false, format)),
        decreases 6 - i,
    {
        layouts.push(part_layout(parts[i], false, format));
        i = i + 1;
    }
    if format == SkinFormat::Modern64x64 {
        let mut k: usize = 0;
        while k < 6
            invariant
                k <= 6,
                parts@ == part_order(),
                layouts@ == Seq::new(6, |j: int| part_layout_spec(part_order()[j], false, format))
                    + Seq::new(k as nat, |j: int| part_layout_spec(part_order()[j], true, format)),
            decreases 6 - k,
        {
            layouts.push(part_layout(parts[k], true, format));
            k = k + 1;
        }
    } else {
        layouts.push(part_layout(BodyPart::Head, true, format));
    }
    layouts
}

/// Height of the texture of a skin format.
pub open spec fn texture_height(format: SkinFormat) -> u32 {
    if format == SkinFormat::Modern64x64 {
        64
    } else {
        32
    }
}

pub open spec fn rect_inside(r: PixelRect, width: u32, height: u32) -> bool {
    r.x + r.w <= width && r.y + r.h <= height
}

pub open spec fn faces_inside(f: FaceRects, width: u32, height: u32) -> bool {
    &&& rect_inside(f.top, width, height)
    &&& rect_inside(f.bottom, width, height)
    &&& rect_inside(f.right, width, height)
    &&& rect_inside(f.front, width, height)
    &&& rect_inside(f.left, width, height)
    &&& rect_inside(f.back, width, height)
}

/// Every face of every cuboid of the model lies on the skin texture: a legacy
/// 64x32 skin is read from its 32 rows only.
pub proof fn lemma_layout_fits_texture(format: SkinFormat)
    ensures
        forall|i: int|
            0 <= i < model_layout_spec(format).len() ==> faces_inside(
                (#[trigger] model_layout_spec(format)[i]).uvs,
                64,
                texture_height(format),
            ),
{
    let l = model_layout_spec(format);
    assert forall|i: int| 0 <= i < l.len() implies faces_inside(
        (#[trigger] l[i]).uvs,
        64,
        texture_height(format),
    ) by {
        if i < 6 {
            assert(l[i] == part_layout_spec(part_order()[i], false, format));
        } else if format == SkinFormat::Modern64x64 {
            assert(l[i] == part_layout_spec(part_order()[i - 6], true, format));
        } else {
            assert(l[i] == part_layout_spec(BodyPart::Head, true, format));
        }
    }
}

/// The outer layer wraps the base layer: a 64x64 skin has, after the six base
/// cuboids, an outer cuboid for each of them in the same order, with the same
/// place, size and joint and drawn slightly larger; a legacy skin has only
/// the hat over the head.
pub proof fn lemma_outer_layer_wraps_base(format: SkinFormat)
    ensures
        model_layout_spec(format).len() == (if format == SkinFormat::Modern64x64 {
            12int
        } else {
            7int
        }),
        forall|i: int|
            0 <= i < model_layout_spec(format).len() ==> (#[trigger] model_layout_spec(format)[i]).overlay
                == (i >= 6),
        forall|i: int|
            6 <= i < model_layout_spec(format).len() ==> {
                let outer = #[trigger] model_layout_spec(format)[i];
                let base = model_layout_spec(format)[i - 6];
                &&& outer.part == base.part
                &&& outer.center == base.center
                &&& outer.size == base.size
                &&& outer.pivot == base.pivot
                &&& outer.inflate_32nds > base.inflate_32nds
            },
{
    let l = model_layout_spec(format);
    assert forall|i: int| 0 <= i < l.len() implies (#[trigger] l[i]).overlay == (i >= 6) by {
        if i < 6 {
            assert(l[i] == part_layout_spec(part_order()[i], false, format));
        } else if format == SkinFormat::Modern64x64 {
            assert(l[i] == part_layout_spec(part_order()[i - 6], true, format));
        } else {
            assert(l[i] == part_layout_spec(BodyPart::Head, true, format));
        }
    }
    assert forall|i: int| 6 <= i < l.len() implies {
        let outer = #[trigger] l[i];
        let base = l[i - 6];
        &&& outer.part == base.part
        &&& outer.center == base.center
        &&& outer.size == base.size
        &&& outer.pivot == base.pivot
        &&& outer.inflate_32nds > base.inflate_32nds
    } by {
        assert(l[i - 6] == part_layout_spec(part_order()[i - 6], false, format));
        if format == SkinFormat::Modern64x64 {
            assert(l[i] == part_layout_spec(part_order()[i - 6], true, format));
        } else {
            assert(l[i] == part_layout_spec(BodyPart::Head, true, format));
        }
    }
}

/// A legacy 64x32 skin has no texture of its own for the left arm and leg:
/// they are drawn from the right arm's and right leg's texture.
pub proof fn lemma_legacy_left_limbs_reuse_right(format: SkinFormat)
    requires
        format == SkinFormat::Legacy64x32,
    ensures
        model_layout_spec(format)[3].uvs == model_layout_spec(format)[2].uvs,
        model_layout_spec(format)[5].uvs == model_layout_spec(format)[4].uvs,
        model_layout_spec(format)[3].part == BodyPart::LeftArm,
        model_layout_spec(format)[5].part == BodyPart::LeftLeg,
{
    let l = model_layout_spec(format);
    assert(l[2] == part_layout_spec(BodyPart::RightArm, false, format));
    assert(l[3] == part_layout_spec(BodyPart::LeftArm, false, format));
    assert(l[4] == part_layout_spec(BodyPart::RightLeg, false, format));
    assert(l[5] == part_layout_spec(BodyPart::LeftLeg, false, format));
}

/// The six face rectangles of a cuboid.
pub open spec fn face_list(f: FaceRects) -> Seq<PixelRect> {
    seq![f.top, f.bottom, f.right, f.front, f.left, f.back]
}

/// Two rectangles share a pixel.
pub open spec fn rects_overlap(a: PixelRect, b: PixelRect) -> bool {
    a.x < b.x + b.w && b.x < a.x + a.w && a.y < b.y + b.h && b.y < a.y + a.h
}

/// The texture area of cuboid `i` of the 64x64 layout, as `(x0, y0, x1, y1)`.
spec fn area_of(i: int) -> (int, int, int, int) {
    if i == 0 {
        (0, 0, 32, 16)
    } else if i == 1 {
        (16, 16, 40, 32)
    } else if i == 2 {
        (40, 16, 56, 32)
    } else if i == 3 {
        (32, 48, 48, 64)
    } else if i == 4 {
        (0, 16, 16, 32)
    } else if i == 5 {
        (16, 48, 32, 64)
    } else if i == 6 {
        (32, 0, 64, 16)
    } else if i == 7 {
        (16, 32, 40, 48)
    } else if i == 8 {
        (40, 32, 56, 48)
    } else if i == 9 {
        (48, 48, 64, 64)
    } else if i == 10 {
        (0, 32, 16, 48)
    } else {
        (0, 48, 16, 64)
    }
}

spec fn inside_area(r: PixelRect, a: (int, int, int, int)) -> bool {
    a.0 <= r.x && r.x + r.w <= a.2 && a.1 <= r.y && r.y + r.h <= a.3
}

proof fn lemma_faces_in_area(i: int, k: int)
    requires
        0 <= i < 12,
        0 <= k < 6,
    ensures
        inside_area(face_list(model_layout_spec(SkinFormat::Modern64x64)[i].uvs)[k], area_of(i)),
{
    let l = model_layout_spec(SkinFormat::Modern64x64);
    if i < 6 {
        assert(l[i] == part_layout_spec(part_order()[i], false, SkinFormat::Modern64x64));
    } else {
        assert(l[i] == part_layout_spec(part_order()[i - 6], true, SkinFormat::Modern64x64));
    }
    if i == 0 {} else if i == 1 {} else if i == 2 {} else if i == 3 {} else if i == 4 {}
    else if i == 5 {} else if i == 6 {} else if i == 7 {} else if i == 8 {} else if i == 9 {}
    else if i == 10 {} else {}
}

/// On a 64x64 skin no two cuboids of the model read the same texture pixel:
/// every face of one cuboid is disjoint from every face of any other, so each
/// part, base or outer, has a texture area of its own.
pub proof fn lemma_modern_layout_faces_disjoint(i: int, j: int, k: int, m: int)
    requires
        0 <= i < 12,
        0 <= j < 12,
        i != j,
        0 <= k < 6,
        0 <= m < 6,
    ensures
        !rects_overlap(
            face_list(model_layout_spec(SkinFormat::Modern64x64)[i].uvs)[k],
            face_list(model_layout_spec(SkinFormat::Modern64x64)[j].uvs)[m],
        ),
{
    lemma_faces_in_area(i, k);
    lemma_faces_in_area(j, m);
    let a = area_of(i);
    let b = area_of(j);
    assert(a.2 <= b.0 || b.2 <= a.0 || a.3 <= b.1 || b.3 <= a.1);
}

/// The outer layer of each part of a 64x64 skin is read from the Minecraft
/// overlay area that belongs to that part: the hat 32 columns right of the
/// head, the jacket, right sleeve and right trouser leg 16 rows below the body,
/// right arm and right leg, the left sleeve 16 columns right of the left arm and
/// the left trouser leg 16 columns left of the left leg.
pub proof fn lemma_outer_layer_texture_offsets(i: int, k: int)
    requires
        0 <= i < 6,
        0 <= k < 6,
    ensures
        ({
            let l = model_layout_spec(SkinFormat::Modern64x64);
            let base = face_list(l[i].uvs)[k];
            let outer = face_list(l[i + 6].uvs)[k];
            let (dx, dy) = if i == 0 {
                (32int, 0int)
            } else if i == 3 {
                (16, 0)
            } else if i == 5 {
                (-16, 0)
            } else {
                (0, 16)
            };
            &&& outer.x == base.x + dx
            &&& outer.y == base.y + dy
            &&& outer.w == base.w
            &&& outer.h == base.h
        }),
{
    let l = model_layout_spec(SkinFormat::Modern64x64);
    assert(l[i] == part_layout_spec(part_order()[i], false, SkinFormat::Modern64x64));
    assert(l[i + 6] == part_layout_spec(part_order()[i], true, SkinFormat::Modern64x64));
    if i == 0 {} else if i == 1 {} else if i == 2 {} else if i == 3 {} else if i == 4 {} else {}
}

} // verus!
