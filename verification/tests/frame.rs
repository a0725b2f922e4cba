use skinhelm::cape::CapeRenderState;
use skinhelm::frame::{head_draw_order, model_draw_order, plan_frame, DrawStep, FramePlan, FrameRender, PoseKind};
use skinhelm::viewer::{BodyPart, DebugMode};

fn shown_cape() -> CapeRenderState {
    let mut cape = CapeRenderState::new();
    cape.mark_loaded();
    cape
}

#[test]
fn frames_walk_only_when_animated_and_not_debugging() {
    let hidden = CapeRenderState::new();
    assert_eq!(
        plan_frame(true, DebugMode::Disabled, true, hidden),
        FramePlan {
            pose: PoseKind::Walk,
            render: FrameRender::Model { overlays: true, cape: false, unlit: false },
        }
    );
    assert_eq!(
        plan_frame(true, DebugMode::Disabled, false, shown_cape()),
        FramePlan {
            pose: PoseKind::CapeReactiveWalk,
            render: FrameRender::Model { overlays: false, cape: true, unlit: false },
        }
    );
    assert_eq!(plan_frame(false, DebugMode::Disabled, true, shown_cape()).pose, PoseKind::Static);
    assert_eq!(plan_frame(true, DebugMode::Unlit, true, shown_cape()).pose, PoseKind::Static);
}

#[test]
fn debug_views_choose_their_render() {
    let cape = shown_cape();
    assert_eq!(
        plan_frame(false, DebugMode::SolidHead, true, cape).render,
        FrameRender::HeadDebug { textured: false, overlay: false }
    );
    assert_eq!(
        plan_frame(false, DebugMode::HeadOverlay, true, cape).render,
        FrameRender::HeadDebug { textured: true, overlay: true }
    );
    assert_eq!(
        plan_frame(false, DebugMode::FullNoOverlays, true, cape).render,
        FrameRender::Model { overlays: false, cape: false, unlit: false }
    );
    assert_eq!(
        plan_frame(false, DebugMode::Unlit, false, cape).render,
        FrameRender::Model { overlays: true, cape: false, unlit: true }
    );
}

fn meshes() -> Vec<(BodyPart, bool)> {
    vec![
        (BodyPart::Head, false),
        (BodyPart::Body, false),
        (BodyPart::RightArm, false),
        (BodyPart::Head, true),
        (BodyPart::LeftLeg, true),
    ]
}

#[test]
fn model_frames_draw_base_then_cape_then_overlays() {
    let steps = model_draw_order(&meshes(), true, true, true);
    assert_eq!(
        steps,
        vec![
            DrawStep::Part { index: 0, polygon_offset: false },
            DrawStep::Part { index: 1, polygon_offset: false },
            DrawStep::Part { index: 2, polygon_offset: true },
            DrawStep::Cape,
            DrawStep::Part { index: 3, polygon_offset: false },
            DrawStep::Part { index: 4, polygon_offset: true },
        ]
    );
    let without = model_draw_order(&meshes(), false, true, false);
    assert_eq!(without.len(), 3);
    assert!(!without.contains(&DrawStep::Cape));
}

#[test]
fn head_view_draws_head_meshes_only() {
    assert_eq!(
        head_draw_order(&meshes(), true),
        vec![
            DrawStep::Part { index: 0, polygon_offset: false },
            DrawStep::Part { index: 3, polygon_offset: false },
        ]
    );
    assert_eq!(
        head_draw_order(&meshes(), false),
        vec![DrawStep::Part { index: 0, polygon_offset: false }]
    );
}
