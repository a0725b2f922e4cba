use vstd::prelude::*;

use crate::cape::CapeRenderState;
use crate::viewer::{skinview3d_uses_polygon_offset, BodyPart, DebugMode};

verus! {

/// The pose a frame draws the player in.
#[derive(Debug, Clone, Copy, PartialEq, Eq, Structural)]
pub enum PoseKind {
    Static,
    Walk,
    CapeReactiveWalk,
}

/// What a frame renders: the head alone (a diagnostic view), or the model.
#[derive(Debug, Clone, Copy, PartialEq, Eq, Structural)]
pub enum FrameRender {
    HeadDebug { textured: bool, overlay: bool },
    Model { overlays: bool, cape: bool, unlit: bool },
}

/// The decisions behind one rendered frame.
#[derive(Debug, Clone, Copy, PartialEq, Eq, Structural)]
pub struct FramePlan {
    pub pose: PoseKind,
    pub render: FrameRender,
}

/// The player walks only while animation is on and no diagnostic view is
/// active; a shown cape then swings with the limbs.
pub open spec fn pose_for(animation_enabled: bool, debug: DebugMode, cape_renders: bool) -> PoseKind {
    if animation_enabled && debug == DebugMode::Disabled {
        if cape_renders {
            PoseKind::CapeReactiveWalk
        } else {
            PoseKind::Walk
        }
    } else {
        PoseKind::Static
    }
}

/// What each diagnostic view renders; without one the model is drawn with the
/// user's overlay setting and the cape while it is shown.
pub open spec fn render_for(debug: DebugMode, overlays_enabled: bool, cape_renders: bool) -> FrameRender {
    match debug {
        DebugMode::Disabled => FrameRender::Model {
            overlays: overlays_enabled,
            cape: cape_renders,
            unlit: false,
        },
        DebugMode::SolidHead => FrameRender::HeadDebug { textured: false, overlay: false },
        DebugMode::HeadTextured => FrameRender::HeadDebug { textured: true, overlay: false },
        DebugMode::HeadOverlay => FrameRender::HeadDebug { textured: true, overlay: true },
        DebugMode::BaseOnly => FrameRender::Model { overlays: false, cape: false, unlit: false },
        DebugMode::FullNoOverlays => FrameRender::Model {
            overlays: false,
            cape: false,
            unlit: false,
        },
        DebugMode::FullOverlays => FrameRender::Model { overlays: true, cape: false, unlit: false },
        DebugMode::Unlit => FrameRender::Model { overlays: true, cape: false, unlit: true },
    }
}

/// Decides the pose and the render of a frame from the viewer's settings.
pub fn plan_frame(
    animation_enabled: bool,
    debug: DebugMode,
    overlays_enabled: bool,
    cape: CapeRenderState,
) -> (p: FramePlan)
    ensures
        p.pose == pose_for(animation_enabled, debug, cape.is_loaded() && cape.is_visible()),
        p.render == render_for(debug, overlays_enabled, cape.is_loaded() && cape.is_visible()),
{
    let cape_renders = cape.should_render();
    let pose = if animation_enabled && debug == DebugMode::Disabled {
        if cape_renders {
            PoseKind::CapeReactiveWalk
        } else {
            PoseKind::Walk
        }
    } else {
        PoseKind::Static
    };
    let render = match debug {
        DebugMode::Disabled => FrameRender::Model {
            overlays: overlays_enabled,
            cape: cape_renders,
            unlit: false,
        },
        DebugMode::SolidHead => FrameRender::HeadDebug { textured: false, overlay: false },
        DebugMode::HeadTextured => FrameRender::HeadDebug { textured: true, overlay: false },
        DebugMode::HeadOverlay => FrameRender::HeadDebug { textured: true, overlay: true },
        DebugMode::BaseOnly | DebugMode::FullNoOverlays => FrameRender::Model {
            overlays: false,
            cape: false,
            unlit: false,
        },
        DebugMode::FullOverlays => FrameRender::Model { overlays: true, cape: false, unlit: false },
        DebugMode::Unlit => FrameRender::Model { overlays: true, cape: false, unlit: true },
    };
    FramePlan { pose, render }
}

/// One draw call of a frame: a mesh of the model, by its index, or the cape.
#[derive(Debug, Clone, Copy, PartialEq, Eq, Structural)]
pub enum DrawStep {
    Part { index: usize, polygon_offset: bool },
    Cape,
}

pub open spec fn is_limb(part: BodyPart) -> bool {
    part is RightArm || part is LeftArm || part is RightLeg || part is LeftLeg
}

/// Whether a mesh, given by its part and layer, is drawn in a pass over the
/// `overlay` layer (of the head only, when `head_only`).
pub open spec fn selected(mesh: (BodyPart, bool), overlay: bool, head_only: bool) -> bool {
    mesh.1 == overlay && (!head_only || mesh.0 == BodyPart::Head)
}

/// The draw calls of one pass over the meshes, in mesh order: limbs of the
/// model are offset, the head-only passes never are.
pub open spec fn pass_steps(meshes: Seq<(BodyPart, bool)>, overlay: bool, head_only: bool) -> Seq<
    DrawStep,
>
    decreases meshes.len(),
{
    if meshes.len() == 0 {
        Seq::empty()
    } else {
        let rest = pass_steps(meshes.drop_last(), overlay, head_only);
        let last = meshes.last();
        if selected(last, overlay, head_only) {
            rest.push(
                DrawStep::Part {
                    index: (meshes.len() - 1) as usize,
                    polygon_offset: !head_only && is_limb(last.0),
                },
            )
        } else {
            rest
        }
    }
}

/// The draw calls of a model frame: the opaque base layer, then the cape when
/// it is shown and uploaded, then the translucent outer layer when enabled.
pub open spec fn model_steps(
    meshes: Seq<(BodyPart, bool)>,
    overlays: bool,
    cape_visible: bool,
    cape_ready: bool,
) -> Seq<DrawStep> {
    pass_steps(meshes, false, false) + (if cape_visible && cape_ready {
        seq![DrawStep::Cape]
    } else {
        Seq::empty()
    }) + (if overlays {
        pass_steps(meshes, true, false)
    } else {
        Seq::empty()
    })
}

/// The draw calls of the head diagnostic view: the base head, then the hat
/// when asked for.
pub open spec fn head_steps(meshes: Seq<(BodyPart, bool)>, overlay: bool) -> Seq<DrawStep> {
    pass_steps(meshes, false, true) + (if overlay {
        pass_steps(meshes, true, true)
    } else {
        Seq::empty()
    })
}

fn push_pass(meshes: &[(BodyPart, bool)], overlay: bool, head_only: bool, steps: &mut Vec<DrawStep>)
    ensures
        final(steps)@ == old(steps)@ + pass_steps(meshes@, overlay, head_only),
{
    let mut i: usize = 0;
    while i < meshes.len()
        invariant
            i <= meshes@.len(),
            steps@ == old(steps)@ + pass_steps(meshes@.take(i as int), overlay, head_only),
        decreases meshes@.len() - i,
    {
        let (part, layer) = meshes[i];
        proof {
            let next = meshes@.take(i + 1);
            assert(next.drop_last() == meshes@.take(i as int));
            assert(next.last() == meshes@[i as int]);
        }
        if layer == overlay && (!head_only || part == BodyPart::Head) {
            let offset = !head_only && skinview3d_uses_polygon_offset(part);
            steps.push(DrawStep::Part { index: i, polygon_offset: offset });
        }
        proof {
            assert(old(steps)@ + pass_steps(meshes@.take(i + 1), overlay, head_only) =~= steps@);
        }
        i = i + 1;
    }
    assert(meshes@.take(meshes@.len() as int) == meshes@);
}

/// The draw calls of a model frame over the meshes, given by part and layer.
pub fn model_draw_order(
    meshes: &[(BodyPart, bool)],
    overlays: bool,
    cape_visible: bool,
    cape_ready: bool,
) -> (steps: Vec<DrawStep>)
    ensures
        steps@ == model_steps(meshes@, overlays, cape_visible, cape_ready),
{
    let mut steps: Vec<DrawStep> = Vec::new();
    push_pass(meshes, false, false, &mut steps);
    if cape_visible && cape_ready {
        steps.push(DrawStep::Cape);
    }
    if overlays {
        push_pass(meshes, true, false, &mut steps);
    }
    assert(steps@ =~= model_steps(meshes@, overlays, cape_visible, cape_ready));
    steps
}

/// The draw calls of the head diagnostic view over the meshes.
pub fn head_draw_order(meshes: &[(BodyPart, bool)], overlay: bool) -> (steps: Vec<DrawStep>)
    ensures
        steps@ == head_steps(meshes@, overlay),
{
    let mut steps: Vec<DrawStep> = Vec::new();
    push_pass(meshes, false, true, &mut steps);
    if overlay {
        push_pass(meshes, true, true, &mut steps);
    }
    assert(steps@ =~= head_steps(meshes@, overlay));
    steps
}

/// The mesh a draw call draws; the cape is none of the model's meshes.
pub open spec fn step_mesh(step: DrawStep) -> int {
    match step {
        DrawStep::Part { index, .. } => index as int,
        DrawStep::Cape => -1,
    }
}

/// Some draw call of `steps` draws mesh `k`.
pub open spec fn draws_mesh(steps: Seq<DrawStep>, k: int) -> bool {
    exists|i: int| 0 <= i < steps.len() && step_mesh(#[trigger] steps[i]) == k
}

/// A pass draws exactly its selected meshes, each once and in mesh order.
proof fn lemma_pass_steps(meshes: Seq<(BodyPart, bool)>, overlay: bool, head_only: bool)
    requires
        meshes.len() <= usize::MAX,
    ensures
        forall|i: int|
            0 <= i < pass_steps(meshes, overlay, head_only).len() ==> {
                let step = #[trigger] pass_steps(meshes, overlay, head_only)[i];
                &&& step is Part
                &&& 0 <= step_mesh(step) < meshes.len()
                &&& selected(meshes[step_mesh(step)], overlay, head_only)
                &&& step->polygon_offset == (!head_only && is_limb(meshes[step_mesh(step)].0))
            },
        forall|i: int, j: int|
            0 <= i < j < pass_steps(meshes, overlay, head_only).len() ==> step_mesh(
                #[trigger] pass_steps(meshes, overlay, head_only)[i],
            ) < step_mesh(#[trigger] pass_steps(meshes, overlay, head_only)[j]),
        forall|k: int|
            0 <= k < meshes.len() && selected(#[trigger] meshes[k], overlay, head_only) ==> exists|
                i: int,
            |
                0 <= i < pass_steps(meshes, overlay, head_only).len() && step_mesh(
                    #[trigger] pass_steps(meshes, overlay, head_only)[i],
                ) == k,
    decreases meshes.len(),
{
    if meshes.len() > 0 {
        let prev = meshes.drop_last();
        lemma_pass_steps(prev, overlay, head_only);
        let rest = pass_steps(prev, overlay, head_only);
        let s = pass_steps(meshes, overlay, head_only);
        let n = meshes.len() - 1;
        assert forall|k: int| 0 <= k < prev.len() implies #[trigger] prev[k] == meshes[k] by {}
        assert forall|i: int| 0 <= i < rest.len() implies #[trigger] s[i] == rest[i] by {}
        assert forall|k: int|
            0 <= k < meshes.len() && selected(#[trigger] meshes[k], overlay, head_only) implies exists|
                i: int,
            | 0 <= i < s.len() && step_mesh(#[trigger] s[i]) == k by {
            if k < n {
                assert(selected(prev[k], overlay, head_only));
                let i = choose|i: int| 0 <= i < rest.len() && step_mesh(#[trigger] rest[i]) == k;
                assert(s[i] == rest[i]);
            } else {
                assert(s[rest.len() as int] == s.last());
            }
        }
    }
}

/// A model frame draws every base mesh once, then the cape (only when it is
/// shown and uploaded), then, when the outer layer is enabled, every overlay
/// mesh once: the translucent layer always comes after everything it blends
/// over. Limbs, and only limbs, are drawn with a polygon offset.
pub proof fn lemma_model_layers_in_order(
    meshes: Seq<(BodyPart, bool)>,
    overlays: bool,
    cape_visible: bool,
    cape_ready: bool,
)
    requires
        meshes.len() <= usize::MAX,
    ensures
        forall|i: int, j: int|
            0 <= i < j < model_steps(meshes, overlays, cape_visible, cape_ready).len() ==> layer_rank(
                meshes,
                #[trigger] model_steps(meshes, overlays, cape_visible, cape_ready)[i],
            ) <= layer_rank(
                meshes,
                #[trigger] model_steps(meshes, overlays, cape_visible, cape_ready)[j],
            ),
        forall|i: int, j: int|
            0 <= i < j < model_steps(meshes, overlays, cape_visible, cape_ready).len() ==> step_mesh(
                #[trigger] model_steps(meshes, overlays, cape_visible, cape_ready)[i],
            ) != step_mesh(#[trigger] model_steps(meshes, overlays, cape_visible, cape_ready)[j]),
        forall|k: int|
            0 <= k < meshes.len() ==> (#[trigger] draws_mesh(
                model_steps(meshes, overlays, cape_visible, cape_ready),
                k,
            ) <==> (!meshes[k].1 || overlays)),
        model_steps(meshes, overlays, cape_visible, cape_ready).contains(DrawStep::Cape) <==> (
        cape_visible && cape_ready),
        forall|i: int|
            0 <= i < model_steps(meshes, overlays, cape_visible, cape_ready).len() && (
            #[trigger] model_steps(meshes, overlays, cape_visible, cape_ready)[i]) is Part ==> model_steps(
                meshes,
                overlays,
                cape_visible,
                cape_ready,
            )[i]->polygon_offset == is_limb(
                meshes[step_mesh(model_steps(meshes, overlays, cape_visible, cape_ready)[i])].0,
            ),
{
    lemma_pass_steps(meshes, false, false);
    lemma_pass_steps(meshes, true, false);
    let base = pass_steps(meshes, false, false);
    let cape: Seq<DrawStep> = if cape_visible && cape_ready {
        seq![DrawStep::Cape]
    } else {
        Seq::empty()
    };
    let outer: Seq<DrawStep> = if overlays {
        pass_steps(meshes, true, false)
    } else {
        Seq::empty()
    };
    let s = model_steps(meshes, overlays, cape_visible, cape_ready);
    assert(s == base + cape + outer);
    let bc = base.len() + cape.len();
    assert forall|i: int| 0 <= i < s.len() implies {
        let step = #[trigger] s[i];
        &&& i < base.len() ==> step == base[i] && layer_rank(meshes, step) == 0
        &&& base.len() <= i < bc ==> step == DrawStep::Cape && layer_rank(meshes, step) == 1
        &&& bc <= i ==> step == outer[i - bc] && layer_rank(meshes, step) == 2
    } by {
        if i < base.len() {
            assert(s[i] == base[i]);
        } else if i < bc {
            assert(s[i] == cape[i - base.len()]);
        } else {
            assert(s[i] == outer[i - bc]);
        }
    }
    assert forall|i: int, j: int|
        0 <= i < j < s.len() implies step_mesh(#[trigger] s[i]) != step_mesh(#[trigger] s[j]) by {
        if i < base.len() && bc <= j {
            assert(!meshes[step_mesh(s[i])].1);
            assert(meshes[step_mesh(s[j])].1);
        }
    }
    assert forall|k: int| 0 <= k < meshes.len() implies (#[trigger] draws_mesh(s, k) <==> (
    !meshes[k].1 || overlays)) by {
        if !meshes[k].1 {
            assert(selected(meshes[k], false, false));
            let i = choose|i: int| 0 <= i < base.len() && step_mesh(#[trigger] base[i]) == k;
            assert(s[i] == base[i]);
        } else if overlays {
            assert(selected(meshes[k], true, false));
            let i = choose|i: int| 0 <= i < outer.len() && step_mesh(#[trigger] outer[i]) == k;
            assert(s[i + bc] == outer[i]);
        } else {
            assert forall|i: int| 0 <= i < s.len() implies step_mesh(#[trigger] s[i]) != k by {
                if i < base.len() {
                    assert(!meshes[step_mesh(s[i])].1);
                }
            }
        }
    }
    if cape_visible && cape_ready {
        assert(s[base.len() as int] == DrawStep::Cape);
    } else {
        assert forall|i: int| 0 <= i < s.len() implies #[trigger] s[i] != DrawStep::Cape by {}
    }
}

/// The head diagnostic view draws only head meshes, without polygon offset:
/// every base head mesh, then, when asked for, every hat mesh.
pub proof fn lemma_head_view_draws_only_the_head(meshes: Seq<(BodyPart, bool)>, overlay: bool)
    requires
        meshes.len() <= usize::MAX,
    ensures
        forall|i: int|
            0 <= i < head_steps(meshes, overlay).len() ==> {
                let step = #[trigger] head_steps(meshes, overlay)[i];
                &&& step is Part
                &&& !step->polygon_offset
                &&& meshes[step_mesh(step)].0 == BodyPart::Head
            },
        forall|i: int, j: int|
            0 <= i < j < head_steps(meshes, overlay).len() ==> layer_rank(
                meshes,
                #[trigger] head_steps(meshes, overlay)[i],
            ) <= layer_rank(meshes, #[trigger] head_steps(meshes, overlay)[j]),
        forall|k: int|
            0 <= k < meshes.len() ==> (#[trigger] draws_mesh(head_steps(meshes, overlay), k) <==> (
            meshes[k].0 == BodyPart::Head && (!meshes[k].1 || overlay))),
{
    lemma_pass_steps(meshes, false, true);
    lemma_pass_steps(meshes, true, true);
    let base = pass_steps(meshes, false, true);
    let hat: Seq<DrawStep> = if overlay {
        pass_steps(meshes, true, true)
    } else {
        Seq::empty()
    };
    let s = head_steps(meshes, overlay);
    assert(s == base + hat);
    assert forall|i: int| 0 <= i < s.len() implies {
        let step = #[trigger] s[i];
        &&& i < base.len() ==> step == base[i] && layer_rank(meshes, step) == 0
        &&& base.len() <= i ==> step == hat[i - base.len()] && layer_rank(meshes, step) == 2
    } by {
        if i < base.len() {
            assert(s[i] == base[i]);
        } else {
            assert(s[i] == hat[i - base.len()]);
        }
    }
    assert forall|k: int| 0 <= k < meshes.len() implies (#[trigger] draws_mesh(s, k) <==> (
    meshes[k].0 == BodyPart::Head && (!meshes[k].1 || overlay))) by {
        if meshes[k].0 == BodyPart::Head && !meshes[k].1 {
            assert(selected(meshes[k], false, true));
            let i = choose|i: int| 0 <= i < base.len() && step_mesh(#[trigger] base[i]) == k;
            assert(s[i] == base[i]);
        } else if meshes[k].0 == BodyPart::Head && overlay {
            assert(selected(meshes[k], true, true));
            let i = choose|i: int| 0 <= i < hat.len() && step_mesh(#[trigger] hat[i]) == k;
            assert(s[i + base.len()] == hat[i]);
        } else {
            assert forall|i: int| 0 <= i < s.len() implies step_mesh(#[trigger] s[i]) != k by {}
        }
    }
}

/// The layer a draw call belongs to: base meshes, the cape, overlay meshes.
pub open spec fn layer_rank(meshes: Seq<(BodyPart, bool)>, step: DrawStep) -> int {
    match step {
        DrawStep::Part { index, .. } => if meshes[index as int].1 {
            2
        } else {
            0
        },
        DrawStep::Cape => 1,
    }
}

/// The player walks only while animation is switched on and no diagnostic
/// view is active: with animation off, or in any diagnostic view, every frame
/// is static. While walking, the cape swings with the limbs exactly when it is
/// loaded and shown.
pub proof fn lemma_pose_follows_animation(animation_enabled: bool, debug: DebugMode, cape: CapeRenderState)
    ensures
        !animation_enabled ==> pose_for(animation_enabled, debug, cape.is_loaded() && cape.is_visible())
            == PoseKind::Static,
        (pose_for(animation_enabled, debug, cape.is_loaded() && cape.is_visible()) != PoseKind::Static)
            <==> (animation_enabled && debug == DebugMode::Disabled),
        (pose_for(animation_enabled, debug, cape.is_loaded() && cape.is_visible())
            == PoseKind::CapeReactiveWalk) <==> (animation_enabled && debug == DebugMode::Disabled
            && cape.is_loaded() && cape.is_visible()),
{
}

/// Without a diagnostic view the model is drawn lit, with the outer layer as
/// the user set it and the cape exactly while it is shown. A diagnostic view
/// never draws the cape, and only the unlit view turns lighting off.
pub proof fn lemma_render_follows_settings(debug: DebugMode, overlays_enabled: bool, cape_renders: bool)
    ensures
        debug == DebugMode::Disabled ==> render_for(debug, overlays_enabled, cape_renders)
            == (FrameRender::Model { overlays: overlays_enabled, cape: cape_renders, unlit: false }),
        debug != DebugMode::Disabled ==> !(render_for(debug, overlays_enabled, cape_renders) is Model
            && render_for(debug, overlays_enabled, cape_renders)->cape),
        (render_for(debug, overlays_enabled, cape_renders) is Model && render_for(
            debug,
            overlays_enabled,
            cape_renders,
        )->unlit) <==> (debug == DebugMode::Unlit),
        (render_for(debug, overlays_enabled, cape_renders) is HeadDebug) <==> (debug
            == DebugMode::SolidHead || debug == DebugMode::HeadTextured || debug
            == DebugMode::HeadOverlay),
{
}

/// A frame draws the cape, or swings it with the limbs, only while a cape is
/// loaded and shown, and never in a diagnostic view.
pub proof fn lemma_cape_drawn_only_when_shown(
    animation_enabled: bool,
    debug: DebugMode,
    overlays_enabled: bool,
    cape: CapeRenderState,
)
    ensures
        (render_for(debug, overlays_enabled, cape.is_loaded() && cape.is_visible()) matches FrameRender::Model {
            cape: c,
            ..
        } && c) ==> cape.is_loaded() && cape.is_visible() && debug == DebugMode::Disabled,
        pose_for(animation_enabled, debug, cape.is_loaded() && cape.is_visible())
            == PoseKind::CapeReactiveWalk ==> cape.is_loaded() && cape.is_visible(),
        debug != DebugMode::Disabled ==> pose_for(
            animation_enabled,
            debug,
            cape.is_loaded() && cape.is_visible(),
        ) == PoseKind::Static,
{
}

} // verus!
