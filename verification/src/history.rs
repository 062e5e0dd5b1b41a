//! What holds of a scene over time: of every sequence of steps, not of one.
//!
//! A step is one call that changes a scene. The functions here say what a
//! sequence of steps makes of a scene and what it asks of the GPU, and the
//! lemmas state what is true whatever the steps are: a scene stays well
//! formed, ids grow and are never handed out twice, live objects never share
//! a slot or change it, and the uniform buffers are built once.

use vstd::prelude::*;
use crate::layout::{slot_offset, usable, UniformLayout, ACTOR_UNIFORM_SIZE, MAX_OBJECTS};
use crate::pipelines::CameraUniform;
use crate::render_context::RenderCommand;
use crate::scene::ObjectID;
use crate::scene_object::AnyObject;
use crate::scene_view::{
    lemma_add_keeps_wf, lemma_add_texture_keeps_wf, lemma_frame_keeps_wf, lemma_mount_keeps_wf,
    lemma_remove_keeps_wf, lemma_replace_keeps_wf, lemma_textures_keeps_wf,
    lemma_unmount_keeps_wf, SceneView,
};
use crate::texture::Texture;

verus! {



/// One call that changes a scene.
pub enum Step {
    /// `add` with the given object.
    Add(AnyObject),
    /// `remove` with the given id.
    Remove(ObjectID),
    /// A change of the object of the given id into the given one, through
    /// `get_mut` or `with_object_mut`.
    Replace(ObjectID, AnyObject),
    /// `add_texture` with the given texture.
    AddTexture(Texture),
    /// `process_texture_queue`.
    ProcessTextureQueue,
    /// `resolve`.
    Resolve,
    /// `render` with a context of the given layout and camera.
    Render(UniformLayout, CameraUniform),
}

impl SceneView {
    /// The scene after one step.
    pub open spec fn apply(self, step: Step) -> SceneView {
        match step {
            Step::Add(object) => self.add(object),
            Step::Remove(id) => self.remove(id),
            Step::Replace(id, object) => self.replace(id, object),
            Step::AddTexture(texture) => self.add_texture(texture),
            Step::ProcessTextureQueue => self.after_textures(),
            Step::Resolve => self.after_resolve(),
            Step::Render(layout, _) => self.after_frame(layout),
        }
    }

    /// What one step asks of the GPU.
    pub open spec fn emitted(self, step: Step) -> Seq<RenderCommand> {
        match step {
            Step::ProcessTextureQueue => self.texture_commands(),
            Step::Resolve => self.resolve_commands(),
            Step::Render(layout, camera) => self.frame_commands(layout, camera),
            _ => Seq::empty(),
        }
    }

    /// The scene after the given steps, one after another.
    pub open spec fn run(self, steps: Seq<Step>) -> SceneView
        decreases steps.len(),
    {
        if steps.len() == 0 {
            self
        } else {
            self.run(steps.drop_last()).apply(steps.last())
        }
    }

    /// What the given steps ask of the GPU, one after another.
    pub open spec fn recorded(self, steps: Seq<Step>) -> Seq<RenderCommand>
        decreases steps.len(),
    {
        if steps.len() == 0 {
            Seq::empty()
        } else {
            self.recorded(steps.drop_last()) + self.run(steps.drop_last()).emitted(steps.last())
        }
    }
}

/// Every step keeps a scene well formed.
pub proof fn lemma_apply_keeps_wf(scene: SceneView, step: Step)
    requires
        scene.wf(),
    ensures
        scene.apply(step).wf(),
{
    match step {
        Step::Add(object) => lemma_add_keeps_wf(scene, object),
        Step::Remove(id) => lemma_remove_keeps_wf(scene, id),
        Step::Replace(id, object) => lemma_replace_keeps_wf(scene, id, object),
        Step::AddTexture(texture) => lemma_add_texture_keeps_wf(scene, texture),
        Step::ProcessTextureQueue => lemma_textures_keeps_wf(scene),
        Step::Resolve => {
            lemma_mount_keeps_wf(scene);
            lemma_unmount_keeps_wf(scene.after_mount());
        },
        Step::Render(layout, _) => lemma_frame_keeps_wf(scene, layout),
    }
}

/// Every sequence of steps keeps a scene well formed.
pub proof fn lemma_run_keeps_wf(scene: SceneView, steps: Seq<Step>)
    requires
        scene.wf(),
    ensures
        scene.run(steps).wf(),
    decreases steps.len(),
{
    if steps.len() > 0 {
        lemma_run_keeps_wf(scene, steps.drop_last());
        lemma_apply_keeps_wf(scene.run(steps.drop_last()), steps.last());
    }
}

/// No step lowers the id that the next object gets, and a successful `add`
/// raises it by one.
pub proof fn lemma_apply_next_id(scene: SceneView, step: Step)
    requires
        scene.wf(),
    ensures
        scene.next_object_id <= scene.apply(step).next_object_id,
        step is Add && scene.add_error() is None ==> scene.apply(step).next_object_id
            == scene.next_object_id + 1,
{
}

/// No sequence of steps lowers the id that the next object gets.
pub proof fn lemma_run_next_id(scene: SceneView, steps: Seq<Step>)
    requires
        scene.wf(),
    ensures
        scene.next_object_id <= scene.run(steps).next_object_id,
    decreases steps.len(),
{
    if steps.len() > 0 {
        lemma_run_next_id(scene, steps.drop_last());
        lemma_run_keeps_wf(scene, steps.drop_last());
        lemma_apply_next_id(scene.run(steps.drop_last()), steps.last());
    }
}

/// Running a sequence of steps is running its first part, then the rest.
pub proof fn lemma_run_split(scene: SceneView, steps: Seq<Step>, n: int)
    requires
        0 <= n <= steps.len(),
    ensures
        scene.run(steps) == scene.run(steps.take(n)).run(steps.skip(n)),
    decreases steps.len() - n,
{
    if n == steps.len() {
        assert(steps.take(n) =~= steps);
        assert(steps.skip(n) =~= Seq::<Step>::empty());
    } else {
        let front = steps.drop_last();
        lemma_run_split(scene, front, n);
        assert(front.take(n) =~= steps.take(n));
        assert(steps.skip(n).drop_last() =~= front.skip(n));
        assert(steps.skip(n).last() == steps.last());
    }
}

/// The id that the `k`-th of the steps returns, where that step is an `add`
/// that succeeds: the next id of the scene that the steps before it led to.
pub open spec fn returned(scene: SceneView, steps: Seq<Step>, k: int) -> Option<ObjectID> {
    let before = scene.run(steps.take(k));
    if steps[k] is Add && before.add_error() is None {
        Some(before.next_object_id)
    } else {
        None
    }
}

/// Ids are handed out in strictly increasing order: of two calls of `add`
/// that succeed, whatever happens before, between and after them, the later
/// one returns the greater id. So no two calls ever return the same id.
pub proof fn lemma_ids_increase(scene: SceneView, steps: Seq<Step>, i: int, j: int)
    requires
        scene.wf(),
        0 <= i < j < steps.len(),
    ensures
        returned(scene, steps, i) is Some && returned(scene, steps, j) is Some ==> returned(
            scene,
            steps,
            i,
        )->Some_0 < returned(scene, steps, j)->Some_0,
{
    if returned(scene, steps, i) is Some && returned(scene, steps, j) is Some {
        let upto_i = steps.take(i);
        let upto_j = steps.take(j);
        let at_i = scene.run(upto_i);
        lemma_run_keeps_wf(scene, upto_i);
        // the i-th step itself
        let through_i = steps.take(i + 1);
        assert(through_i.drop_last() =~= upto_i);
        assert(through_i.last() == steps[i]);
        lemma_apply_next_id(at_i, steps[i]);
        // the steps between
        lemma_run_split(scene, upto_j, i + 1);
        assert(upto_j.take(i + 1) =~= through_i);
        lemma_run_keeps_wf(scene, through_i);
        lemma_run_next_id(scene.run(through_i), upto_j.skip(i + 1));
    }
}

/// An id that was handed out is never handed out again: whatever the steps
/// after `remove`, the next `add` returns a greater id.
pub proof fn lemma_no_reuse(scene: SceneView, id: ObjectID, steps: Seq<Step>)
    requires
        scene.wf(),
        id < scene.next_object_id,
    ensures
        id < scene.remove(id).run(steps).next_object_id,
{
    lemma_remove_keeps_wf(scene, id);
    lemma_run_next_id(scene.remove(id), steps);
}

/// A second `remove` of the same id changes nothing and asks nothing of the GPU.
pub proof fn lemma_remove_idempotent(scene: SceneView, id: ObjectID)
    requires
        scene.wf(),
    ensures
        scene.remove(id).remove(id) == scene.remove(id),
        scene.remove(id).emitted(Step::Remove(id)) == Seq::<RenderCommand>::empty(),
{
    if scene.contains(id) {
        assert(scene.slots[scene.index[id] as int] is Some);
        assert(scene.remove(id).remove(id).slots =~= scene.remove(id).slots);
    }
}

/// Two live objects never share a slot: their dynamic offsets differ, each is
/// a multiple of the alignment, and each lies within the per-object buffer.
pub proof fn lemma_live_offsets_distinct(scene: SceneView, alignment: u32, a: ObjectID, b: ObjectID)
    requires
        scene.wf(),
        usable(alignment),
        scene.contains(a),
        scene.contains(b),
        a != b,
    ensures
        0 <= scene.slot_of(a) < MAX_OBJECTS,
        0 <= scene.slot_of(b) < MAX_OBJECTS,
        scene.slot_of(a) != scene.slot_of(b),
        slot_offset(alignment, scene.slot_of(a) as u64) != slot_offset(
            alignment,
            scene.slot_of(b) as u64,
        ),
        slot_offset(alignment, scene.slot_of(a) as u64) % (alignment as int) == 0,
        slot_offset(alignment, scene.slot_of(b) as u64) % (alignment as int) == 0,
        slot_offset(alignment, scene.slot_of(a) as u64) + ACTOR_UNIFORM_SIZE
            <= MAX_OBJECTS * alignment,
{
    assert(scene.slots[scene.index[a] as int] is Some);
    assert(scene.slots[scene.index[b] as int] is Some);
    crate::layout::lemma_slots_disjoint(
        alignment,
        scene.slot_of(a) as u64,
        scene.slot_of(b) as u64,
    );
}

/// An object keeps its slot as long as it lives: no step moves it.
pub proof fn lemma_slot_stable(scene: SceneView, step: Step, id: ObjectID)
    requires
        scene.wf(),
        scene.contains(id),
        scene.apply(step).contains(id),
    ensures
        scene.apply(step).slot_of(id) == scene.slot_of(id),
{
    match step {
        Step::Add(object) => {
            if scene.add_error() is None {
                assert(scene.slots[scene.index[id] as int] is Some);
            }
        },
        _ => {},
    }
}

/// No step unbuilds the uniform buffers or changes their layout.
pub proof fn lemma_apply_keeps_layout(scene: SceneView, step: Step)
    requires
        scene.layout is Some,
    ensures
        scene.apply(step).layout == scene.layout,
{
}

/// The uniform buffers are built once: after a frame, whatever the steps
/// that follow, the scene keeps the layout that the frame was drawn with, and
/// no later frame asks for a pipeline, a buffer or a bind group to be built.
pub proof fn lemma_buffers_built_once(
    scene: SceneView,
    first: UniformLayout,
    steps: Seq<Step>,
    later: UniformLayout,
)
    ensures
        scene.after_frame(first).run(steps).layout == Some(scene.frame_layout(first)),
        scene.after_frame(first).run(steps).build_commands(later) == Seq::<RenderCommand>::empty(),
    decreases steps.len(),
{
    if steps.len() > 0 {
        lemma_buffers_built_once(scene, first, steps.drop_last(), later);
        lemma_apply_keeps_layout(scene.after_frame(first).run(steps.drop_last()), steps.last());
    }
}

} // verus!
