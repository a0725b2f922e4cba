use skinhelm::layout::{box_faces, model_layout, FaceRects, PartLayout, PixelRect, Point3, Size3};
use skinhelm::skin::SkinFormat;
use skinhelm::viewer::BodyPart;

fn rect(x: u32, y: u32, w: u32, h: u32) -> PixelRect {
    PixelRect { x, y, w, h }
}

fn faces(rects: [(u32, u32, u32, u32); 6]) -> FaceRects {
    let r = rects.map(|(x, y, w, h)| rect(x, y, w, h));
    FaceRects { top: r[0], bottom: r[1], right: r[2], front: r[3], left: r[4], back: r[5] }
}

#[test]
fn box_layout_of_the_head() {
    assert_eq!(
        box_faces(0, 0, 8, 8, 8),
        faces([(8, 0, 8, 8), (16, 0, 8, 8), (0, 8, 8, 8), (8, 8, 8, 8), (16, 8, 8, 8), (24, 8, 8, 8)])
    );
    assert_eq!(
        box_faces(16, 16, 8, 12, 4),
        faces([
            (20, 16, 8, 4),
            (28, 16, 8, 4),
            (16, 20, 4, 12),
            (20, 20, 8, 12),
            (28, 20, 4, 12),
            (32, 20, 8, 12),
        ])
    );
}

#[test]
fn modern_layout_has_base_then_outer_parts() {
    let layouts = model_layout(SkinFormat::Modern64x64);
    assert_eq!(layouts.len(), 12);
    let order = [
        BodyPart::Head,
        BodyPart::Body,
        BodyPart::RightArm,
        BodyPart::LeftArm,
        BodyPart::RightLeg,
        BodyPart::LeftLeg,
    ];
    for (i, layout) in layouts.iter().enumerate() {
        assert_eq!(layout.part, order[i % 6]);
        assert_eq!(layout.overlay, i >= 6);
    }
    assert_eq!(
        layouts[3].uvs,
        faces([
            (36, 48, 4, 4),
            (40, 48, 4, 4),
            (32, 52, 4, 12),
            (36, 52, 4, 12),
            (40, 52, 4, 12),
            (44, 52, 4, 12),
        ])
    );
    assert_eq!(
        layouts[6],
        PartLayout {
            part: BodyPart::Head,
            overlay: true,
            center: Point3 { x: 0, y: 24, z: 0 },
            size: Size3 { w: 8, h: 8, d: 8 },
            pivot: Point3 { x: 0, y: 20, z: 0 },
            uvs: faces([
                (40, 0, 8, 8),
                (48, 0, 8, 8),
                (32, 8, 8, 8),
                (40, 8, 8, 8),
                (48, 8, 8, 8),
                (56, 8, 8, 8),
            ]),
            inflate_32nds: 34,
        }
    );
    assert_eq!(
        layouts[9].uvs,
        faces([
            (52, 48, 4, 4),
            (56, 48, 4, 4),
            (48, 52, 4, 12),
            (52, 52, 4, 12),
            (56, 52, 4, 12),
            (60, 52, 4, 12),
        ])
    );
    assert_eq!(layouts[11].uvs.front, rect(4, 52, 4, 12));
    assert_eq!(layouts[7].inflate_32nds, 33);
    assert_eq!(layouts[2].center, Point3 { x: -6, y: 14, z: 0 });
    assert_eq!(layouts[2].pivot, Point3 { x: -6, y: 20, z: 0 });
    assert_eq!(layouts[4].center, Point3 { x: -2, y: 6, z: 0 });
}

#[test]
fn legacy_layout_reuses_right_limbs_and_has_only_a_hat() {
    let layouts = model_layout(SkinFormat::Legacy64x32);
    assert_eq!(layouts.len(), 7);
    assert_eq!(layouts[3].uvs, layouts[2].uvs);
    assert_eq!(layouts[5].uvs, layouts[4].uvs);
    assert_eq!(layouts[3].uvs.front, rect(44, 20, 4, 12));
    assert_eq!(layouts[5].uvs.front, rect(4, 20, 4, 12));
    assert_eq!(layouts[6].part, BodyPart::Head);
    assert!(layouts[6].overlay);
    for layout in &layouts {
        for r in [layout.uvs.top, layout.uvs.bottom, layout.uvs.right, layout.uvs.front, layout.uvs.left, layout.uvs.back] {
            assert!(r.x + r.w <= 64 && r.y + r.h <= 32);
        }
    }
}

#[test]
fn model_dimensions_match_the_minecraft_player() {
    let layouts = model_layout(SkinFormat::Modern64x64);
    let expected = [
        (BodyPart::Head, (8, 8, 8), (0, 24)),
        (BodyPart::Body, (8, 12, 4), (0, 14)),
        (BodyPart::RightArm, (4, 12, 4), (-6, 14)),
        (BodyPart::LeftArm, (4, 12, 4), (6, 14)),
        (BodyPart::RightLeg, (4, 12, 4), (-2, 6)),
        (BodyPart::LeftLeg, (4, 12, 4), (2, 6)),
    ];
    for (layout, (part, (w, h, d), (x, y))) in layouts.iter().zip(expected) {
        assert_eq!(layout.part, part);
        assert_eq!(layout.size, Size3 { w, h, d });
        assert_eq!(layout.center, Point3 { x, y, z: 0 });
        assert_eq!(layout.inflate_32nds, 32);
    }
}
