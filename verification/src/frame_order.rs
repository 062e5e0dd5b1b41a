//! The order and the bounds of what a frame asks of the GPU.
//!
//! The commands of a frame come phase by phase, so that nothing is allocated
//! or freed on behalf of an object between two draws; every uniform record
//! is written into its own slot and within its buffer; and only mounted
//! objects are drawn.

use vstd::prelude::*;
use crate::layout::{usable, UniformLayout, ACTOR_UNIFORM_SIZE, MAX_OBJECTS};
use crate::pipelines::CameraUniform;
use crate::render_context::{
    all_in_phase, in_phase_order, lemma_one_phase, lemma_phase_order_concat, within_phases,
    FramePhase, RenderCommand,
};
use crate::renderer::{composite_commands, scene_pass_commands, spec_scene_clear, FAR_DEPTH};
use crate::scene::ObjectID;
use crate::scene_view::{
    build_commands, camera_commands, draw_commands_upto, lemma_mount_keeps_wf,
    lemma_textures_keeps_wf, lemma_unmount_keeps_wf, mount_commands_upto, texture_commands_upto,
    unmount_commands_upto, Entry, Life, SceneView,
};
use crate::texture::{Texture, TextureID};

verus! {

/// Building belongs to the first phase of a frame.
pub proof fn lemma_build_phase(layout: UniformLayout)
    ensures
        all_in_phase(build_commands(layout), FramePhase::BuildingPipeline),
{
}

/// Readying textures belongs to the resolve phase.
pub proof fn lemma_texture_phase(textures: Map<TextureID, Texture>, queue: Seq<TextureID>, n: int)
    requires
        0 <= n <= queue.len(),
    ensures
        all_in_phase(texture_commands_upto(textures, queue, n), FramePhase::ResolvePending),
    decreases n,
{
    if n > 0 {
        lemma_texture_phase(textures, queue, n - 1);
    }
}

/// Mounting belongs to the resolve phase.
pub proof fn lemma_mount_phase(slots: Seq<Option<Entry>>, n: int)
    requires
        0 <= n <= slots.len(),
    ensures
        all_in_phase(mount_commands_upto(slots, n), FramePhase::ResolvePending),
    decreases n,
{
    if n > 0 {
        lemma_mount_phase(slots, n - 1);
    }
}

/// Unmounting belongs to the resolve phase.
pub proof fn lemma_unmount_phase(slots: Seq<Option<Entry>>, n: int)
    requires
        0 <= n <= slots.len(),
    ensures
        all_in_phase(unmount_commands_upto(slots, n), FramePhase::ResolvePending),
    decreases n,
{
    if n > 0 {
        lemma_unmount_phase(slots, n - 1);
    }
}

/// Drawing belongs to the draw phase.
pub proof fn lemma_draw_phase(
    slots: Seq<Option<Entry>>,
    layout: UniformLayout,
    bound: Set<TextureID>,
    n: int,
)
    requires
        0 <= n <= slots.len(),
    ensures
        all_in_phase(draw_commands_upto(slots, layout, bound, n), FramePhase::DrawObjects),
    decreases n,
{
    if n > 0 {
        lemma_draw_phase(slots, layout, bound, n - 1);
    }
}

/// The commands of a frame come phase by phase: first what builds, then what
/// resolves pending additions and removals, then the camera, then the draws.
/// So nothing is mounted, brought up to date or unmounted between two draws.
pub proof fn lemma_frame_in_phase_order(
    scene: SceneView,
    layout: UniformLayout,
    camera: CameraUniform,
)
    requires
        scene.wf(),
    ensures
        in_phase_order(scene.frame_commands(layout, camera)),
        within_phases(
            scene.frame_commands(layout, camera),
            FramePhase::BuildingPipeline.rank(),
            FramePhase::DrawObjects.rank(),
        ),
{
    let built = scene.after_build(layout);
    let textured = built.after_textures();
    let mounted = textured.after_mount();
    let resolved = textured.after_resolve();
    let c1 = scene.build_commands(layout);
    let c2 = built.texture_commands();
    let c3a = textured.mount_commands();
    let c3b = mounted.unmount_commands();
    let c4 = camera_commands(camera);
    let c5 = resolved.draw_commands();
    lemma_build_phase(layout);
    lemma_texture_phase(built.textures, built.added_textures, built.added_textures.len() as int);
    lemma_mount_phase(textured.slots, textured.slots.len() as int);
    lemma_unmount_phase(mounted.slots, mounted.slots.len() as int);
    lemma_draw_phase(
        resolved.slots,
        resolved.layout->Some_0,
        resolved.bound_textures,
        resolved.slots.len() as int,
    );
    lemma_one_phase(c1, FramePhase::BuildingPipeline);
    lemma_one_phase(c2, FramePhase::ResolvePending);
    lemma_one_phase(c3a, FramePhase::ResolvePending);
    lemma_one_phase(c3b, FramePhase::ResolvePending);
    lemma_one_phase(c4, FramePhase::UpdateCamera);
    lemma_one_phase(c5, FramePhase::DrawObjects);
    lemma_phase_order_concat(c3a, c3b, 1, 1, 1);
    lemma_phase_order_concat(c1, c2, 0, 1, 1);
    lemma_phase_order_concat(c1 + c2, c3a + c3b, 0, 1, 1);
    lemma_phase_order_concat(c1 + c2 + (c3a + c3b), c4, 0, 2, 2);
    lemma_phase_order_concat(c1 + c2 + (c3a + c3b) + c4, c5, 0, 3, 3);
    assert(scene.frame_commands(layout, camera) =~= c1 + c2 + (c3a + c3b) + c4 + c5);
}

/// The commands of a whole frame of the renderer come phase by phase: the
/// scene pass from building to drawing, then the copy to the surface, then
/// the presentation.
pub proof fn lemma_rendered_frame_in_phase_order(
    scene: SceneView,
    layout: UniformLayout,
    camera: CameraUniform,
    attached: bool,
)
    requires
        scene.wf(),
    ensures
        in_phase_order(
            scene_pass_commands(scene, layout, camera) + composite_commands(attached),
        ),
{
    let begin = seq![
        RenderCommand::BeginScenePass { clear: spec_scene_clear(), depth: FAR_DEPTH },
    ];
    let early = scene.texture_commands();
    let textured = scene.after_textures();
    let frame = textured.frame_commands(layout, camera);
    let submit = seq![RenderCommand::Submit];
    let composite = composite_commands(attached);
    lemma_textures_keeps_wf(scene);
    lemma_frame_in_phase_order(textured, layout, camera);
    lemma_one_phase(begin, FramePhase::BuildingPipeline);
    assert(in_phase_order(submit) && within_phases(submit, 4, 4));
    assert(in_phase_order(composite) && within_phases(composite, 4, 5));
    if scene.layout is None {
        assert(early =~= Seq::<RenderCommand>::empty());
        assert(begin + early =~= begin);
        lemma_phase_order_concat(begin, frame, 0, 0, 3);
    } else {
        lemma_texture_phase(
            scene.textures,
            scene.added_textures,
            scene.added_textures.len() as int,
        );
        lemma_one_phase(early, FramePhase::ResolvePending);
        lemma_phase_order_concat(begin, early, 0, 1, 1);
        // the uniform buffers are built, so the frame starts with resolving
        assert(textured.build_commands(layout) =~= Seq::<RenderCommand>::empty());
        assert(within_phases(frame, 1, 3)) by {
            let built = textured.after_build(layout);
            let again = built.after_textures();
            let mounted = again.after_mount();
            let resolved = again.after_resolve();
            let c2 = built.texture_commands();
            let c3a = again.mount_commands();
            let c3b = mounted.unmount_commands();
            let c4 = camera_commands(camera);
            let c5 = resolved.draw_commands();
            lemma_texture_phase(
                built.textures,
                built.added_textures,
                built.added_textures.len() as int,
            );
            lemma_mount_phase(again.slots, again.slots.len() as int);
            lemma_unmount_phase(mounted.slots, mounted.slots.len() as int);
            lemma_draw_phase(
                resolved.slots,
                resolved.layout->Some_0,
                resolved.bound_textures,
                resolved.slots.len() as int,
            );
            assert(frame =~= c2 + (c3a + c3b) + c4 + c5);
        }
        lemma_phase_order_concat(begin + early, frame, 0, 1, 3);
    }
    lemma_phase_order_concat(begin + early + frame, submit, 0, 4, 4);
    lemma_phase_order_concat(begin + early + frame + submit, composite, 0, 4, 5);
    assert(scene_pass_commands(scene, layout, camera) =~= begin + early + frame + submit);
}

/// Every write of a per-object record in the list starts at a multiple of the
/// alignment and ends within the per-object buffer, and every binding of a
/// slot names the start of a slot.
pub open spec fn writes_in_bounds(commands: Seq<RenderCommand>, alignment: u32) -> bool {
    forall|i: int|
        0 <= i < commands.len() ==> match #[trigger] commands[i] {
            RenderCommand::WriteActor { offset, .. } => offset % (alignment as u64) == 0 && offset
                + ACTOR_UNIFORM_SIZE <= MAX_OBJECTS * alignment,
            RenderCommand::BindActor { dynamic_offset, .. } => dynamic_offset % alignment == 0
                && dynamic_offset + ACTOR_UNIFORM_SIZE <= MAX_OBJECTS * alignment,
            _ => true,
        }
}

/// What the draw pass asks for the first `n` slots writes and binds within bounds.
pub proof fn lemma_draw_pass_in_bounds(
    slots: Seq<Option<Entry>>,
    layout: UniformLayout,
    bound: Set<TextureID>,
    n: int,
)
    requires
        usable(layout.spec_alignment()),
        0 <= n <= slots.len() <= MAX_OBJECTS,
    ensures
        writes_in_bounds(draw_commands_upto(slots, layout, bound, n), layout.spec_alignment()),
    decreases n,
{
    if n > 0 {
        lemma_draw_pass_in_bounds(slots, layout, bound, n - 1);
        let alignment = layout.spec_alignment();
        let a = alignment as int;
        let index = (n - 1) as u64;
        assert((index * a) % a == 0 && 0 <= index * a && index * a + a <= MAX_OBJECTS * a)
            by (nonlinear_arith)
            requires
                a > 0,
                0 <= index < MAX_OBJECTS,
        ;
        let before = draw_commands_upto(slots, layout, bound, n - 1);
        let here = match slots[n - 1] {
            Some(entry) => entry.draw_commands(layout, bound, n - 1),
            None => Seq::empty(),
        };
        assert(writes_in_bounds(here, alignment));
        assert forall|i: int| 0 <= i < (before + here).len() implies match #[trigger] (before
            + here)[i] {
            RenderCommand::WriteActor { offset, .. } => offset % (alignment as u64) == 0 && offset
                + ACTOR_UNIFORM_SIZE <= MAX_OBJECTS * alignment,
            RenderCommand::BindActor { dynamic_offset, .. } => dynamic_offset % alignment == 0
                && dynamic_offset + ACTOR_UNIFORM_SIZE <= MAX_OBJECTS * alignment,
            _ => true,
        } by {
            if i < before.len() {
                assert((before + here)[i] == before[i]);
            } else {
                assert((before + here)[i] == here[i - before.len()]);
            }
        }
    }
}

/// The draws of a scene write every record into its own slot of the
/// per-object buffer: at a multiple of the alignment, and within the buffer.
pub proof fn lemma_draws_in_bounds(scene: SceneView, alignment: u32)
    requires
        scene.wf(),
        scene.layout matches Some(layout) && layout.spec_alignment() == alignment,
        usable(alignment),
    ensures
        writes_in_bounds(scene.draw_commands(), alignment),
{
    lemma_draw_pass_in_bounds(
        scene.slots,
        scene.layout->Some_0,
        scene.bound_textures,
        scene.slots.len() as int,
    );
}

/// Every object that a scene holds is mounted and stays.
pub open spec fn all_mounted(scene: SceneView) -> bool {
    forall|id: ObjectID| #[trigger]
        scene.contains(id) ==> scene.entry(id).life == Life::Mounted
}

/// After pending additions and removals are resolved, every object that the
/// scene holds is mounted and stays.
pub proof fn lemma_resolved_all_mounted(scene: SceneView)
    requires
        scene.wf(),
    ensures
        all_mounted(scene.after_resolve()),
{
    let resolved = scene.after_resolve();
    assert forall|id: ObjectID| #[trigger] resolved.contains(id) implies resolved.entry(id).life
        == Life::Mounted by {
        assert(scene.contains(id));
        assert(scene.slots[scene.index[id] as int] is Some);
    }
}

/// Every draw in the list names an object that the scene holds and that is
/// mounted.
pub open spec fn draws_name_mounted(commands: Seq<RenderCommand>, scene: SceneView) -> bool {
    forall|i: int|
        0 <= i < commands.len() ==> (#[trigger] commands[i] matches RenderCommand::Draw {
            object,
            ..
        } ==> scene.contains(object) && scene.entry(object).mounted())
}

/// What the draw pass asks for the first `n` slots draws only mounted objects.
pub proof fn lemma_draw_pass_names_mounted(scene: SceneView, layout: UniformLayout, n: int)
    requires
        scene.wf(),
        all_mounted(scene),
        0 <= n <= scene.slots.len(),
    ensures
        draws_name_mounted(
            draw_commands_upto(scene.slots, layout, scene.bound_textures, n),
            scene,
        ),
    decreases n,
{
    if n > 0 {
        lemma_draw_pass_names_mounted(scene, layout, n - 1);
        let before = draw_commands_upto(scene.slots, layout, scene.bound_textures, n - 1);
        let here = match scene.slots[n - 1] {
            Some(entry) => entry.draw_commands(layout, scene.bound_textures, n - 1),
            None => Seq::empty(),
        };
        if scene.slots[n - 1] is Some {
            let entry = scene.slots[n - 1]->Some_0;
            assert(scene.contains(entry.id) && scene.entry(entry.id) == entry);
        }
        assert(draws_name_mounted(here, scene));
        assert forall|i: int| 0 <= i < (before + here).len() implies (#[trigger] (before
            + here)[i] matches RenderCommand::Draw { object, .. } ==> scene.contains(object)
            && scene.entry(object).mounted()) by {
            if i < before.len() {
                assert((before + here)[i] == before[i]);
            } else {
                assert((before + here)[i] == here[i - before.len()]);
            }
        }
    }
}

/// A frame draws only what it has mounted: every draw of a frame names an
/// object that the scene holds after the frame and that is mounted, so its
/// vertex buffer was created and not destroyed.
pub proof fn lemma_frame_draws_mounted(scene: SceneView, layout: UniformLayout)
    requires
        scene.wf(),
    ensures
        draws_name_mounted(scene.after_frame(layout).draw_commands(), scene.after_frame(layout)),
{
    let built = scene.after_build(layout);
    lemma_textures_keeps_wf(built);
    let textured = built.after_textures();
    lemma_resolved_all_mounted(textured);
    lemma_mount_keeps_wf(textured);
    lemma_unmount_keeps_wf(textured.after_mount());
    let resolved = textured.after_resolve();
    lemma_draw_pass_names_mounted(resolved, resolved.layout->Some_0, resolved.slots.len() as int);
}

} // verus!
