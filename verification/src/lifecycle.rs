//! Mounts and unmounts come in pairs.
//!
//! Whatever is done to a scene, every object is mounted at most once, and
//! unmounted exactly once after that before it is let go; an object that
//! leaves before it was mounted is neither mounted nor unmounted. This is
//! proved here by counting the mounts and unmounts of each id in what a
//! sequence of steps asks of the GPU.

use vstd::prelude::*;
use crate::history::{lemma_run_keeps_wf, Step};
use crate::layout::UniformLayout;
use crate::pipelines::CameraUniform;
use crate::render_context::RenderCommand;
use crate::scene::ObjectID;
use crate::scene_object::AnyObject;
use crate::scene_view::{
    camera_commands, draw_commands_upto, lemma_first_free, lemma_mount_keeps_wf,
    lemma_textures_keeps_wf, mount_commands_upto, texture_commands, texture_commands_upto,
    unmount_commands_upto, Entry, SceneView,
};
use crate::texture::{Texture, TextureID};

verus! {

/// How often a command occurs in a list.
pub open spec fn count(commands: Seq<RenderCommand>, command: RenderCommand) -> nat
    decreases commands.len(),
{
    if commands.len() == 0 {
        0
    } else {
        count(commands.drop_last(), command) + (if commands.last() == command {
            1nat
        } else {
            0nat
        })
    }
}

/// How often the object of the given id was mounted.
pub open spec fn mounts(commands: Seq<RenderCommand>, id: ObjectID) -> nat {
    count(commands, RenderCommand::Mount { object: id })
}

/// How often the object of the given id was unmounted.
pub open spec fn unmounts(commands: Seq<RenderCommand>, id: ObjectID) -> nat {
    count(commands, RenderCommand::Unmount { object: id })
}

/// Counting in two lists one after the other is counting in each.
pub proof fn lemma_count_concat(
    a: Seq<RenderCommand>,
    b: Seq<RenderCommand>,
    command: RenderCommand,
)
    ensures
        count(a + b, command) == count(a, command) + count(b, command),
    decreases b.len(),
{
    if b.len() == 0 {
        assert(a + b =~= a);
    } else {
        assert((a + b).drop_last() =~= a + b.drop_last());
        assert((a + b).last() == b.last());
        lemma_count_concat(a, b.drop_last(), command);
    }
}

/// A list in which a command does not occur holds it zero times.
pub proof fn lemma_count_absent(commands: Seq<RenderCommand>, command: RenderCommand)
    requires
        forall|i: int| 0 <= i < commands.len() ==> commands[i] != command,
    ensures
        count(commands, command) == 0,
    decreases commands.len(),
{
    if commands.len() > 0 {
        lemma_count_absent(commands.drop_last(), command);
    }
}

/// A list of one command holds that command once and no other.
pub proof fn lemma_count_single(only: RenderCommand, command: RenderCommand)
    ensures
        count(seq![only], command) == (if only == command {
            1nat
        } else {
            0nat
        }),
{
    let list = seq![only];
    assert(list.drop_last() =~= Seq::<RenderCommand>::empty());
    assert(count(list.drop_last(), command) == 0);
    assert(list.last() == only);
}

/// Whether a command is a mount or an unmount.
pub open spec fn is_lifecycle(command: RenderCommand) -> bool {
    command is Mount || command is Unmount
}

/// What the mount pass asks for the first `n` slots holds one mount for the
/// object of the given id if the object waits in one of them, and otherwise
/// none; it holds no unmount.
pub proof fn lemma_mount_pass_counts(scene: SceneView, n: int, id: ObjectID)
    requires
        scene.wf(),
        0 <= n <= scene.slots.len(),
    ensures
        mounts(mount_commands_upto(scene.slots, n), id) == (if scene.contains(id)
            && scene.slot_of(id) < n && scene.entry(id).pending() {
            1nat
        } else {
            0nat
        }),
        unmounts(mount_commands_upto(scene.slots, n), id) == 0,
    decreases n,
{
    if n > 0 {
        lemma_mount_pass_counts(scene, n - 1, id);
        let before = mount_commands_upto(scene.slots, n - 1);
        let here = match scene.slots[n - 1] {
            Some(entry) => entry.mount_commands(),
            None => Seq::empty(),
        };
        lemma_count_concat(before, here, RenderCommand::Mount { object: id });
        lemma_count_concat(before, here, RenderCommand::Unmount { object: id });
        lemma_count_absent(here, RenderCommand::Unmount { object: id });
        if scene.contains(id) {
            assert(scene.slots[scene.index[id] as int] is Some);
        }
        match scene.slots[n - 1] {
            Some(entry) => {
                assert(scene.index.contains_key(entry.id) && scene.index[entry.id] == n - 1);
                if entry.pending() && entry.id == id {
                    lemma_count_single(
                        RenderCommand::Mount { object: id },
                        RenderCommand::Mount { object: id },
                    );
                } else {
                    lemma_count_absent(here, RenderCommand::Mount { object: id });
                }
            },
            None => {
                lemma_count_absent(here, RenderCommand::Mount { object: id });
            },
        }
    }
}

/// What the unmount pass asks for the first `n` slots holds one unmount for
/// the object of the given id if the object sits in one of them and is
/// leaving, and otherwise none; it holds no mount.
pub proof fn lemma_unmount_pass_counts(scene: SceneView, n: int, id: ObjectID)
    requires
        scene.wf(),
        0 <= n <= scene.slots.len(),
    ensures
        unmounts(unmount_commands_upto(scene.slots, n), id) == (if scene.contains(id)
            && scene.slot_of(id) < n && scene.entry(id).removed() {
            1nat
        } else {
            0nat
        }),
        mounts(unmount_commands_upto(scene.slots, n), id) == 0,
    decreases n,
{
    if n > 0 {
        lemma_unmount_pass_counts(scene, n - 1, id);
        let before = unmount_commands_upto(scene.slots, n - 1);
        let here = match scene.slots[n - 1] {
            Some(entry) => entry.unmount_commands(),
            None => Seq::empty(),
        };
        lemma_count_concat(before, here, RenderCommand::Mount { object: id });
        lemma_count_concat(before, here, RenderCommand::Unmount { object: id });
        lemma_count_absent(here, RenderCommand::Mount { object: id });
        if scene.contains(id) {
            assert(scene.slots[scene.index[id] as int] is Some);
        }
        match scene.slots[n - 1] {
            Some(entry) => {
                assert(scene.index.contains_key(entry.id) && scene.index[entry.id] == n - 1);
                if entry.removed() && entry.id == id {
                    lemma_count_single(
                        RenderCommand::Unmount { object: id },
                        RenderCommand::Unmount { object: id },
                    );
                } else {
                    lemma_count_absent(here, RenderCommand::Unmount { object: id });
                }
            },
            None => {
                lemma_count_absent(here, RenderCommand::Unmount { object: id });
            },
        }
    }
}

/// Drawing mounts and unmounts nothing.
pub proof fn lemma_draw_pass_counts(
    slots: Seq<Option<Entry>>,
    layout: UniformLayout,
    bound: Set<TextureID>,
    n: int,
    command: RenderCommand,
)
    requires
        is_lifecycle(command),
        0 <= n <= slots.len(),
    ensures
        count(draw_commands_upto(slots, layout, bound, n), command) == 0,
    decreases n,
{
    if n > 0 {
        lemma_draw_pass_counts(slots, layout, bound, n - 1, command);
        let before = draw_commands_upto(slots, layout, bound, n - 1);
        let here = match slots[n - 1] {
            Some(entry) => entry.draw_commands(layout, bound, n - 1),
            None => Seq::empty(),
        };
        lemma_count_concat(before, here, command);
        lemma_count_absent(here, command);
    }
}

/// Readying textures mounts and unmounts nothing.
pub proof fn lemma_texture_pass_counts(
    textures: Map<TextureID, Texture>,
    queue: Seq<TextureID>,
    n: int,
    command: RenderCommand,
)
    requires
        is_lifecycle(command),
        0 <= n <= queue.len(),
    ensures
        count(texture_commands_upto(textures, queue, n), command) == 0,
    decreases n,
{
    if n > 0 {
        lemma_texture_pass_counts(textures, queue, n - 1, command);
        let before = texture_commands_upto(textures, queue, n - 1);
        let here = texture_commands(queue[n - 1], textures[queue[n - 1]]);
        lemma_count_concat(before, here, command);
        lemma_count_absent(here, command);
    }
}

/// What the record of mounts and unmounts says of one id, given the scene
/// that it led to: an object that the scene holds was never unmounted, and
/// was mounted once if it is mounted and never if it is not; of an object that
/// the scene does not hold, every mount was followed by an unmount, and there
/// was at most one; an id that was not handed out yet was never mentioned.
pub open spec fn paired(scene: SceneView, commands: Seq<RenderCommand>, id: ObjectID) -> bool {
    let m = mounts(commands, id);
    let u = unmounts(commands, id);
    if scene.contains(id) {
        u == 0 && m == (if scene.entry(id).mounted() {
            1nat
        } else {
            0nat
        })
    } else {
        m == u && m <= 1 && (id >= scene.next_object_id ==> m == 0)
    }
}

/// Resolving keeps mounts and unmounts paired.
pub proof fn lemma_resolve_paired(scene: SceneView, commands: Seq<RenderCommand>, id: ObjectID)
    requires
        scene.wf(),
        paired(scene, commands, id),
    ensures
        paired(scene.after_resolve(), commands + scene.resolve_commands(), id),
{
    let mounted = scene.after_mount();
    lemma_mount_keeps_wf(scene);
    lemma_mount_pass_counts(scene, scene.slots.len() as int, id);
    lemma_unmount_pass_counts(mounted, mounted.slots.len() as int, id);
    let first = scene.mount_commands();
    let second = mounted.unmount_commands();
    lemma_count_concat(first, second, RenderCommand::Mount { object: id });
    lemma_count_concat(first, second, RenderCommand::Unmount { object: id });
    lemma_count_concat(commands, first + second, RenderCommand::Mount { object: id });
    lemma_count_concat(commands, first + second, RenderCommand::Unmount { object: id });
    if scene.contains(id) {
        assert(scene.slots[scene.index[id] as int] is Some);
    }
}

/// Two scenes hold the same objects in the same state of life: the same ids,
/// the same next id, and each object mounted in both or in neither.
pub open spec fn same_lives(a: SceneView, b: SceneView) -> bool {
    &&& a.next_object_id == b.next_object_id
    &&& forall|id: ObjectID| a.contains(id) <==> b.contains(id)
    &&& forall|id: ObjectID| a.contains(id) ==> a.entry(id).mounted() == b.entry(id).mounted()
}

/// Commands that mention no mount and no unmount of an object, on the way
/// between two scenes that hold the same objects in the same state of life,
/// keep its mounts and unmounts paired.
pub proof fn lemma_quiet_paired(
    before: SceneView,
    after: SceneView,
    commands: Seq<RenderCommand>,
    more: Seq<RenderCommand>,
    id: ObjectID,
)
    requires
        paired(before, commands, id),
        same_lives(before, after),
        mounts(more, id) == 0,
        unmounts(more, id) == 0,
    ensures
        paired(after, commands + more, id),
{
    lemma_count_concat(commands, more, RenderCommand::Mount { object: id });
    lemma_count_concat(commands, more, RenderCommand::Unmount { object: id });
}

/// `add` keeps mounts and unmounts paired.
pub proof fn lemma_add_paired(
    scene: SceneView,
    commands: Seq<RenderCommand>,
    object: AnyObject,
    id: ObjectID,
)
    requires
        scene.wf(),
        paired(scene, commands, id),
    ensures
        paired(scene.add(object), commands, id),
{
    if scene.add_error() is None {
        lemma_first_free(scene.slots, 0);
        if scene.contains(id) {
            assert(scene.slots[scene.index[id] as int] is Some);
        }
    }
}

/// A change of an object leaves every object in its state of life.
pub proof fn lemma_replace_same_lives(scene: SceneView, id: ObjectID, object: AnyObject)
    requires
        scene.wf(),
    ensures
        same_lives(scene, scene.replace(id, object)),
{
    if scene.contains(id) {
        assert(scene.slots[scene.index[id] as int] is Some);
    }
    assert forall|other: ObjectID| scene.contains(other) implies scene.entry(other).mounted()
        == scene.replace(id, object).entry(other).mounted() by {
        assert(scene.slots[scene.index[other] as int] is Some);
    }
}

/// `remove` keeps mounts and unmounts paired: an object that it lets go at
/// once was never mounted.
pub proof fn lemma_remove_paired(
    scene: SceneView,
    commands: Seq<RenderCommand>,
    removed: ObjectID,
    id: ObjectID,
)
    requires
        scene.wf(),
        paired(scene, commands, id),
    ensures
        paired(scene.remove(removed), commands, id),
{
    if scene.contains(removed) {
        assert(scene.slots[scene.index[removed] as int] is Some);
    }
    if scene.contains(id) {
        assert(scene.slots[scene.index[id] as int] is Some);
    }
}

/// What working off the texture queue asks mentions no object.
pub proof fn lemma_texture_queue_counts(scene: SceneView, command: RenderCommand)
    requires
        is_lifecycle(command),
    ensures
        count(scene.texture_commands(), command) == 0,
{
    if scene.layout is Some {
        lemma_texture_pass_counts(
            scene.textures,
            scene.added_textures,
            scene.added_textures.len() as int,
            command,
        );
    } else {
        lemma_count_absent(scene.texture_commands(), command);
    }
}

/// What building and readying textures asks mentions no object.
pub proof fn lemma_prelude_counts(scene: SceneView, layout: UniformLayout, command: RenderCommand)
    requires
        is_lifecycle(command),
    ensures
        count(
            scene.build_commands(layout) + scene.after_build(layout).texture_commands(),
            command,
        ) == 0,
{
    let c1 = scene.build_commands(layout);
    let built = scene.after_build(layout);
    lemma_count_absent(c1, command);
    lemma_texture_queue_counts(built, command);
    lemma_count_concat(c1, built.texture_commands(), command);
}

/// What writing the camera and drawing asks mentions no mount and no unmount.
pub proof fn lemma_finale_counts(scene: SceneView, camera: CameraUniform, command: RenderCommand)
    requires
        is_lifecycle(command),
    ensures
        count(camera_commands(camera) + scene.draw_commands(), command) == 0,
{
    let c4 = camera_commands(camera);
    let c5 = scene.draw_commands();
    lemma_count_absent(c4, command);
    lemma_draw_pass_counts(
        scene.slots,
        scene.layout->Some_0,
        scene.bound_textures,
        scene.slots.len() as int,
        command,
    );
    lemma_count_concat(c4, c5, command);
}

/// A frame keeps mounts and unmounts paired.
pub proof fn lemma_frame_paired(
    scene: SceneView,
    commands: Seq<RenderCommand>,
    layout: UniformLayout,
    camera: CameraUniform,
    id: ObjectID,
)
    requires
        scene.wf(),
        paired(scene, commands, id),
    ensures
        paired(scene.after_frame(layout), commands + scene.frame_commands(layout, camera), id),
{
    let mount = RenderCommand::Mount { object: id };
    let unmount = RenderCommand::Unmount { object: id };
    let built = scene.after_build(layout);
    let textured = built.after_textures();
    let resolved = textured.after_resolve();
    let prelude = scene.build_commands(layout) + built.texture_commands();
    let resolving = textured.resolve_commands();
    let finale = camera_commands(camera) + resolved.draw_commands();
    lemma_textures_keeps_wf(built);
    lemma_prelude_counts(scene, layout, mount);
    lemma_prelude_counts(scene, layout, unmount);
    assert(same_lives(scene, textured));
    lemma_quiet_paired(scene, textured, commands, prelude, id);
    lemma_resolve_paired(textured, commands + prelude, id);
    lemma_finale_counts(resolved, camera, mount);
    lemma_finale_counts(resolved, camera, unmount);
    assert(same_lives(resolved, resolved));
    lemma_quiet_paired(resolved, resolved, commands + prelude + resolving, finale, id);
    assert(commands + scene.frame_commands(layout, camera) =~= commands + prelude + resolving
        + finale);
}

/// Every step keeps mounts and unmounts paired.
pub proof fn lemma_apply_paired(
    scene: SceneView,
    commands: Seq<RenderCommand>,
    step: Step,
    id: ObjectID,
)
    requires
        scene.wf(),
        paired(scene, commands, id),
    ensures
        paired(scene.apply(step), commands + scene.emitted(step), id),
{
    let mount = RenderCommand::Mount { object: id };
    let unmount = RenderCommand::Unmount { object: id };
    let none = Seq::<RenderCommand>::empty();
    match step {
        Step::Add(object) => {
            lemma_add_paired(scene, commands, object, id);
            assert(commands + none =~= commands);
        },
        Step::Remove(other) => {
            lemma_remove_paired(scene, commands, other, id);
            assert(commands + none =~= commands);
        },
        Step::Replace(other, object) => {
            lemma_replace_same_lives(scene, other, object);
            lemma_quiet_paired(scene, scene.replace(other, object), commands, none, id);
        },
        Step::AddTexture(texture) => {
            assert(same_lives(scene, scene.add_texture(texture)));
            lemma_quiet_paired(scene, scene.add_texture(texture), commands, none, id);
        },
        Step::ProcessTextureQueue => {
            lemma_texture_queue_counts(scene, mount);
            lemma_texture_queue_counts(scene, unmount);
            assert(same_lives(scene, scene.after_textures()));
            lemma_quiet_paired(
                scene,
                scene.after_textures(),
                commands,
                scene.texture_commands(),
                id,
            );
        },
        Step::Resolve => {
            lemma_resolve_paired(scene, commands, id);
        },
        Step::Render(layout, camera) => {
            lemma_frame_paired(scene, commands, layout, camera, id);
        },
    }
}

/// The record of a scene that started without objects keeps mounts and
/// unmounts paired, whatever the steps.
pub proof fn lemma_run_paired(scene: SceneView, steps: Seq<Step>, id: ObjectID)
    requires
        scene.wf(),
        scene.index == Map::<ObjectID, usize>::empty(),
    ensures
        paired(scene.run(steps), scene.recorded(steps), id),
    decreases steps.len(),
{
    if steps.len() == 0 {
    } else {
        lemma_run_paired(scene, steps.drop_last(), id);
        lemma_run_keeps_wf(scene, steps.drop_last());
        lemma_apply_paired(
            scene.run(steps.drop_last()),
            scene.recorded(steps.drop_last()),
            steps.last(),
            id,
        );
    }
}

/// Mounts and unmounts come in pairs. Of a scene that started without
/// objects, whatever the steps: every object is mounted at most once; it is
/// unmounted only after it was mounted, and at most once; an object that the
/// scene still holds was not unmounted; and an object that the scene has let
/// go was unmounted exactly as often as it was mounted, so an object that
/// left before it was ever mounted was neither mounted nor unmounted.
pub proof fn lemma_mounts_pair_with_unmounts(scene: SceneView, steps: Seq<Step>, id: ObjectID)
    requires
        scene.wf(),
        scene.index == Map::<ObjectID, usize>::empty(),
    ensures
        mounts(scene.recorded(steps), id) <= 1,
        unmounts(scene.recorded(steps), id) <= mounts(scene.recorded(steps), id),
        scene.run(steps).contains(id) ==> unmounts(scene.recorded(steps), id) == 0 && (mounts(
            scene.recorded(steps),
            id,
        ) == 1 <==> scene.run(steps).entry(id).mounted()),
        !scene.run(steps).contains(id) ==> unmounts(scene.recorded(steps), id) == mounts(
            scene.recorded(steps),
            id,
        ),
{
    lemma_run_paired(scene, steps, id);
}

/// An object that is removed before it was ever mounted leaves in silence:
/// `remove` lets it go at once and asks nothing of the GPU, and the frames
/// before asked neither a mount nor an unmount for it.
pub proof fn lemma_unmounted_leaves_in_silence(scene: SceneView, steps: Seq<Step>, id: ObjectID)
    requires
        scene.wf(),
        scene.index == Map::<ObjectID, usize>::empty(),
        scene.run(steps).contains(id),
        !scene.run(steps).entry(id).mounted(),
    ensures
        !scene.run(steps).remove(id).contains(id),
        scene.run(steps).emitted(Step::Remove(id)) == Seq::<RenderCommand>::empty(),
        mounts(scene.recorded(steps), id) == 0,
        unmounts(scene.recorded(steps), id) == 0,
{
    lemma_run_paired(scene, steps, id);
}

} // verus!
