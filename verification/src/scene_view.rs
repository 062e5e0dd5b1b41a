//! The scene as a mathematical value, and what each step of a frame does to it.
//!
//! A scene holds its objects in numbered slots. The slot of an object never
//! changes while the object lives, and its number, not the object's id, says
//! where the object's uniform record lies: ids grow without bound, slots do
//! not.

use vstd::prelude::*;
use crate::layout::{slot_offset, UniformLayout, ACTOR_UNIFORM_SIZE, CAMERA_UNIFORM_SIZE, MAX_OBJECTS};
use crate::material::PipelineFamily;
use crate::pipelines::{ActorUniform, CameraUniform};
use crate::render_context::{RenderCommand, UniformBuffer};
use crate::scene::{ObjectID, FIRST_OBJECT_ID};
use crate::scene_object::{AnyObject, SceneObject};
use crate::texture::{Texture, TextureID, DEFAULT_TEXTURE};

verus! {

/// Where an object stands in its life in a scene.
#[derive(Clone, Copy, Debug, PartialEq, Eq, Structural)]
pub enum Life {
    /// The object was added and waits to be mounted.
    Pending,
    /// The mount hook has run: the object holds what it needs on the GPU.
    Mounted,
    /// `remove` was called for the mounted object: it is unmounted and let
    /// go with the next frame.
    Leaving,
}

/// An object in its slot, with what the scene knows of its life.
pub struct Entry {
    /// The id that `add` returned for the object.
    pub id: ObjectID,
    pub object: AnyObject,
    pub life: Life,
}

impl Entry {
    /// The entry of an object that was just added.
    pub open spec fn fresh(id: ObjectID, object: AnyObject) -> Entry {
        Entry { id, object, life: Life::Pending }
    }

    /// The entry with another object in it.
    pub open spec fn with_object(self, object: AnyObject) -> Entry {
        Entry { id: self.id, object, life: self.life }
    }

    /// The entry of a mounted object after `remove`.
    pub open spec fn leaving(self) -> Entry {
        Entry { id: self.id, object: self.object, life: Life::Leaving }
    }

    /// The object waits to be mounted.
    pub open spec fn pending(self) -> bool {
        self.life == Life::Pending
    }

    /// The mount hook has run for the object, and the unmount hook has not.
    pub open spec fn mounted(self) -> bool {
        self.life != Life::Pending
    }

    /// `remove` was called for the object, and it is still held.
    pub open spec fn removed(self) -> bool {
        self.life == Life::Leaving
    }

    /// The object's vertex buffer is to be replaced: the object is mounted
    /// and stays, and was changed since the buffer was filled.
    pub open spec fn outdated(self) -> bool {
        self.life == Life::Mounted && self.object.spec_needs_refresh()
    }

    /// The entry after the mount pass of a frame.
    pub open spec fn after_mount(self) -> Entry {
        if self.pending() {
            Entry { id: self.id, object: self.object.spec_mount(), life: Life::Mounted }
        } else if self.outdated() {
            Entry { id: self.id, object: self.object.spec_refresh(), life: Life::Mounted }
        } else {
            self
        }
    }

    /// What the mount pass of a frame asks for this entry: a mount for an
    /// object that waits for it, a fresh vertex buffer for one that was changed.
    pub open spec fn mount_commands(self) -> Seq<RenderCommand> {
        if self.pending() {
            seq![RenderCommand::Mount { object: self.id }]
        } else if self.outdated() {
            seq![RenderCommand::Refresh { object: self.id }]
        } else {
            Seq::empty()
        }
    }

    /// What the unmount pass of a frame asks for this entry: an object that
    /// is leaving is unmounted.
    pub open spec fn unmount_commands(self) -> Seq<RenderCommand> {
        if self.removed() {
            seq![RenderCommand::Unmount { object: self.id }]
        } else {
            Seq::empty()
        }
    }

    /// The record that the shader reads for this entry.
    pub open spec fn actor_uniform(self) -> ActorUniform {
        ActorUniform {
            color: self.object.spec_material().spec_uniform_color(),
            model: self.object.spec_transform(),
        }
    }

    /// What the draw pass of a frame asks for this entry in the given slot:
    /// write its record into its slot, bind the slot, bind its texture where
    /// it has one that is ready, draw.
    pub open spec fn draw_commands(
        self,
        layout: UniformLayout,
        bound: Set<TextureID>,
        slot: int,
    ) -> Seq<RenderCommand> {
        let material = self.object.spec_material();
        let family = material.spec_family();
        let offset = slot_offset(layout.spec_alignment(), slot as u64);
        seq![
            RenderCommand::WriteActor { family, offset: offset as u64, actor: self.actor_uniform() },
            RenderCommand::BindActor { family, dynamic_offset: offset as u32 },
        ] + (match material.spec_texture() {
            Some(texture) => if bound.contains(texture) {
                seq![
                    RenderCommand::BindTexture {
                        family,
                        texture,
                        enabled_offset: layout.spec_enabled_offset(texture),
                    },
                ]
            } else {
                Seq::empty()
            },
            None => Seq::empty(),
        }) + (match self.object.spec_draw() {
            Some(vertices) => seq![RenderCommand::Draw { object: self.id, vertices }],
            None => Seq::empty(),
        })
    }
}

/// The slot after the mount pass.
pub open spec fn mount_slot(slot: Option<Entry>) -> Option<Entry> {
    match slot {
        Some(entry) => Some(entry.after_mount()),
        None => None,
    }
}

/// The slot after the unmount pass: empty where the object was removed.
pub open spec fn unmount_slot(slot: Option<Entry>) -> Option<Entry> {
    match slot {
        Some(entry) => if entry.removed() {
            None
        } else {
            Some(entry)
        },
        None => None,
    }
}

/// The slots of which the first `n` have been through the mount pass.
pub open spec fn mounted_upto(slots: Seq<Option<Entry>>, n: int) -> Seq<Option<Entry>> {
    Seq::new(slots.len(), |s: int| if s < n { mount_slot(slots[s]) } else { slots[s] })
}

/// The slots of which the first `n` have been through the unmount pass.
pub open spec fn unmounted_upto(slots: Seq<Option<Entry>>, n: int) -> Seq<Option<Entry>> {
    Seq::new(slots.len(), |s: int| if s < n { unmount_slot(slots[s]) } else { slots[s] })
}

/// What the mount pass asks for the first `n` slots, slot by slot.
pub open spec fn mount_commands_upto(slots: Seq<Option<Entry>>, n: int) -> Seq<RenderCommand>
    decreases n,
{
    if n <= 0 {
        Seq::empty()
    } else {
        mount_commands_upto(slots, n - 1) + (match slots[n - 1] {
            Some(entry) => entry.mount_commands(),
            None => Seq::empty(),
        })
    }
}

/// What the unmount pass asks for the first `n` slots, slot by slot.
pub open spec fn unmount_commands_upto(slots: Seq<Option<Entry>>, n: int) -> Seq<RenderCommand>
    decreases n,
{
    if n <= 0 {
        Seq::empty()
    } else {
        unmount_commands_upto(slots, n - 1) + (match slots[n - 1] {
            Some(entry) => entry.unmount_commands(),
            None => Seq::empty(),
        })
    }
}

/// What the draw pass asks for the first `n` slots, slot by slot.
pub open spec fn draw_commands_upto(
    slots: Seq<Option<Entry>>,
    layout: UniformLayout,
    bound: Set<TextureID>,
    n: int,
) -> Seq<RenderCommand>
    decreases n,
{
    if n <= 0 {
        Seq::empty()
    } else {
        draw_commands_upto(slots, layout, bound, n - 1) + (match slots[n - 1] {
            Some(entry) => entry.draw_commands(layout, bound, n - 1),
            None => Seq::empty(),
        })
    }
}

/// The first empty slot at or after `from`; the number of slots where all
/// of them are taken.
pub open spec fn first_free(slots: Seq<Option<Entry>>, from: int) -> int
    decreases slots.len() - from,
{
    if from >= slots.len() {
        slots.len() as int
    } else if slots[from] is None {
        from
    } else {
        first_free(slots, from + 1)
    }
}

/// What building the uniform buffers of the simple pipeline family asks of
/// the GPU: the pipeline, the three buffers, the two flags ("off" in the first
/// slot, "on" in the second) and the bind group.
pub open spec fn simple_build_commands(layout: UniformLayout) -> Seq<RenderCommand> {
    let simple = PipelineFamily::Simple;
    seq![
        RenderCommand::CreatePipeline { family: simple },
        RenderCommand::CreateBuffer {
            family: simple,
            buffer: UniformBuffer::Camera,
            size: layout.spec_camera_buffer_size(),
        },
        RenderCommand::CreateBuffer {
            family: simple,
            buffer: UniformBuffer::Actor,
            size: layout.spec_actor_buffer_size(),
        },
        RenderCommand::CreateBuffer {
            family: simple,
            buffer: UniformBuffer::TextureEnabled,
            size: layout.spec_enabled_buffer_size(),
        },
        RenderCommand::WriteFlag { family: simple, offset: 0, value: 0 },
        RenderCommand::WriteFlag {
            family: simple,
            offset: layout.spec_alignment() as u64,
            value: 1,
        },
        RenderCommand::CreateBindGroup {
            family: simple,
            camera_size: CAMERA_UNIFORM_SIZE,
            actor_size: ACTOR_UNIFORM_SIZE,
        },
    ]
}

/// What building the uniform buffers of the line pipeline family asks of the
/// GPU: the pipeline, the camera and per-object buffers and the bind group.
pub open spec fn line_build_commands(layout: UniformLayout) -> Seq<RenderCommand> {
    let line = PipelineFamily::Line;
    seq![
        RenderCommand::CreatePipeline { family: line },
        RenderCommand::CreateBuffer {
            family: line,
            buffer: UniformBuffer::Camera,
            size: layout.spec_camera_buffer_size(),
        },
        RenderCommand::CreateBuffer {
            family: line,
            buffer: UniformBuffer::Actor,
            size: layout.spec_actor_buffer_size(),
        },
        RenderCommand::CreateBindGroup {
            family: line,
            camera_size: CAMERA_UNIFORM_SIZE,
            actor_size: ACTOR_UNIFORM_SIZE,
        },
    ]
}

/// What building the uniform buffers of both built-in pipeline families asks
/// of the GPU: first the simple family's, then the line family's.
pub open spec fn build_commands(layout: UniformLayout) -> Seq<RenderCommand> {
    simple_build_commands(layout) + line_build_commands(layout)
}

/// What readying one texture asks of the GPU: create it, fill it, and make
/// the bind group that draws with it.
pub open spec fn texture_commands(id: TextureID, texture: Texture) -> Seq<RenderCommand> {
    seq![
        RenderCommand::AllocateTexture {
            texture: id,
            width: texture.spec_width(),
            height: texture.spec_height(),
        },
        RenderCommand::UploadTexture { texture: id },
        RenderCommand::CreateTextureBindGroup { family: PipelineFamily::Simple, texture: id },
    ]
}

/// What readying the first `n` textures of the queue asks of the GPU.
pub open spec fn texture_commands_upto(
    textures: Map<TextureID, Texture>,
    queue: Seq<TextureID>,
    n: int,
) -> Seq<RenderCommand>
    decreases n,
{
    if n <= 0 {
        Seq::empty()
    } else {
        texture_commands_upto(textures, queue, n - 1) + texture_commands(
            queue[n - 1],
            textures[queue[n - 1]],
        )
    }
}

/// Whether the texture of the given id is among the first `n` of the queue.
pub open spec fn queued(queue: Seq<TextureID>, n: int, id: TextureID) -> bool {
    exists|j: int| 0 <= j < n && j < queue.len() && queue[j] == id
}

/// The textures of which the first `n` of the queue have a GPU twin.
pub open spec fn textures_upto(
    textures: Map<TextureID, Texture>,
    queue: Seq<TextureID>,
    n: int,
) -> Map<TextureID, Texture> {
    Map::new(
        |id: TextureID| textures.contains_key(id),
        |id: TextureID|
            if queued(queue, n, id) {
                textures[id].spec_allocated()
            } else {
                textures[id]
            },
    )
}

/// The textures that are ready once the first `n` of the queue are.
pub open spec fn bound_upto(bound: Set<TextureID>, queue: Seq<TextureID>, n: int) -> Set<
    TextureID,
> {
    Set::new(|id: TextureID| bound.contains(id) || queued(queue, n, id))
}

/// What writing the camera record asks of the GPU: once for each built-in
/// pipeline family, never once per object.
pub open spec fn camera_commands(camera: CameraUniform) -> Seq<RenderCommand> {
    seq![
        RenderCommand::WriteCamera { family: PipelineFamily::Simple, camera },
        RenderCommand::WriteCamera { family: PipelineFamily::Line, camera },
    ]
}

/// The scene as a value.
pub struct SceneView {
    /// The objects, each in its slot.
    pub slots: Seq<Option<Entry>>,
    /// The slot of each object, by the object's id.
    pub index: Map<ObjectID, usize>,
    /// The id that the next object gets.
    pub next_object_id: ObjectID,
    /// The textures by id.
    pub textures: Map<TextureID, Texture>,
    /// The textures that wait to be made ready on the GPU, in the order in
    /// which they were added.
    pub added_textures: Seq<TextureID>,
    /// The id that the next texture gets.
    pub next_texture_id: TextureID,
    /// The layout of the uniform buffers, once they are built.
    pub layout: Option<UniformLayout>,
    /// The textures that are ready: each has a bind group to draw with.
    pub bound_textures: Set<TextureID>,
}

impl SceneView {
    /// What every scene keeps true of itself.
    pub open spec fn wf(self) -> bool {
        &&& self.slots.len() <= MAX_OBJECTS
        &&& FIRST_OBJECT_ID <= self.next_object_id
        &&& forall|s: int|
            0 <= s < self.slots.len() && (#[trigger] self.slots[s]) is Some ==> {
                let id = self.slots[s]->Some_0.id;
                id < self.next_object_id && self.index.contains_key(id) && self.index[id] == s
            }
        &&& forall|id: ObjectID| #[trigger]
            self.index.contains_key(id) ==> self.index[id] < self.slots.len()
                && self.slots[self.index[id] as int] is Some
                && self.slots[self.index[id] as int]->Some_0.id == id
        &&& self.textures.contains_key(DEFAULT_TEXTURE)
        &&& forall|id: TextureID| #[trigger]
            self.textures.contains_key(id) ==> id < self.next_texture_id
        &&& forall|i: int|
            0 <= i < self.added_textures.len() ==> self.textures.contains_key(
                #[trigger] self.added_textures[i],
            ) && !self.bound_textures.contains(self.added_textures[i])
        &&& forall|i: int, j: int|
            0 <= i < j < self.added_textures.len() ==> self.added_textures[i]
                != self.added_textures[j]
        &&& forall|id: TextureID| #[trigger]
            self.bound_textures.contains(id) ==> self.textures.contains_key(id)
                && self.textures[id].spec_buffer() is Some
        &&& forall|id: TextureID| #[trigger]
            self.textures.contains_key(id) ==> self.bound_textures.contains(id) || queued(
                self.added_textures,
                self.added_textures.len() as int,
                id,
            )
        &&& self.layout is None ==> self.bound_textures == Set::<TextureID>::empty()
    }

    /// Whether the scene holds an object of the given id.
    pub open spec fn contains(self, id: ObjectID) -> bool {
        self.index.contains_key(id)
    }

    /// The slot of the object of the given id.
    pub open spec fn slot_of(self, id: ObjectID) -> int {
        self.index[id] as int
    }

    /// The entry of the object of the given id.
    pub open spec fn entry(self, id: ObjectID) -> Entry {
        self.slots[self.slot_of(id)]->Some_0
    }

    /// The object of the given id, if the scene holds one.
    pub open spec fn object(self, id: ObjectID) -> Option<AnyObject> {
        if self.contains(id) {
            Some(self.entry(id).object)
        } else {
            None
        }
    }

    /// The object of the given id as one of the kind `O`, if the scene holds
    /// an object of that id and it is of that kind.
    pub open spec fn typed<O: SceneObject>(self, id: ObjectID) -> Option<O> {
        match self.object(id) {
            Some(object) => O::spec_downcast(object),
            None => None,
        }
    }

    /// The slot that the next object gets: the lowest that is empty.
    pub open spec fn free_slot(self) -> Option<int> {
        let s = first_free(self.slots, 0);
        if s < MAX_OBJECTS {
            Some(s)
        } else {
            None
        }
    }

    /// The scene with the given entry in the given slot, which is an empty
    /// slot or the first beyond the last.
    pub open spec fn with_slot(self, s: int, entry: Entry) -> SceneView {
        SceneView {
            slots: if s < self.slots.len() {
                self.slots.update(s, Some(entry))
            } else {
                self.slots.push(Some(entry))
            },
            index: self.index.insert(entry.id, s as usize),
            ..self
        }
    }

    /// Why `add` would fail, if it would: there is no empty slot, or no id left.
    pub open spec fn add_error(self) -> Option<crate::scene::SceneError> {
        if self.free_slot() is None {
            Some(crate::scene::SceneError::Full)
        } else if self.next_object_id == usize::MAX {
            Some(crate::scene::SceneError::IdsExhausted)
        } else {
            None
        }
    }

    /// The scene after `add`: the object sits in the lowest empty slot under
    /// the next id, and waits to be mounted.
    pub open spec fn add(self, object: AnyObject) -> SceneView {
        if self.add_error() is Some {
            self
        } else {
            SceneView {
                next_object_id: (self.next_object_id + 1) as usize,
                ..self.with_slot(
                    self.free_slot()->Some_0,
                    Entry::fresh(self.next_object_id, object),
                )
            }
        }
    }

    /// The scene after `remove`. An object that waits to be mounted holds
    /// nothing on the GPU and is let go at once. A mounted object is marked
    /// and stays where it is until the next frame. Where there is no object of
    /// that id, nothing changes.
    pub open spec fn remove(self, id: ObjectID) -> SceneView {
        if !self.contains(id) {
            self
        } else if self.entry(id).pending() {
            SceneView {
                slots: self.slots.update(self.slot_of(id), None),
                index: self.index.remove(id),
                ..self
            }
        } else {
            SceneView {
                slots: self.slots.update(self.slot_of(id), Some(self.entry(id).leaving())),
                ..self
            }
        }
    }

    /// The scene with another object under the given id.
    pub open spec fn replace(self, id: ObjectID, object: AnyObject) -> SceneView {
        if self.contains(id) {
            SceneView {
                slots: self.slots.update(
                    self.slot_of(id),
                    Some(self.entry(id).with_object(object)),
                ),
                ..self
            }
        } else {
            self
        }
    }

    /// The scene after `add_texture`, where an id is left: the texture is
    /// held under the next id and waits to be made ready.
    pub open spec fn add_texture(self, texture: Texture) -> SceneView {
        if self.next_texture_id == usize::MAX {
            self
        } else {
            SceneView {
                textures: self.textures.insert(self.next_texture_id, texture),
                added_textures: self.added_textures.push(self.next_texture_id),
                next_texture_id: (self.next_texture_id + 1) as usize,
                ..self
            }
        }
    }

    /// The layout that a frame is drawn with: the scene's own once its
    /// buffers are built, before that the one that the context brings.
    pub open spec fn frame_layout(self, layout: UniformLayout) -> UniformLayout {
        match self.layout {
            Some(own) => own,
            None => layout,
        }
    }

    /// The scene after the uniform buffers were built, if they were not yet.
    pub open spec fn after_build(self, layout: UniformLayout) -> SceneView {
        SceneView { layout: Some(self.frame_layout(layout)), ..self }
    }

    /// What building the uniform buffers asks of the GPU: nothing once they
    /// are built.
    pub open spec fn build_commands(self, layout: UniformLayout) -> Seq<RenderCommand> {
        if self.layout is None {
            build_commands(layout)
        } else {
            Seq::empty()
        }
    }

    /// The scene after the texture queue was worked off. Before the uniform
    /// buffers are built the queue stays as it is.
    pub open spec fn after_textures(self) -> SceneView {
        if self.layout is None {
            self
        } else {
            SceneView {
                textures: textures_upto(
                    self.textures,
                    self.added_textures,
                    self.added_textures.len() as int,
                ),
                added_textures: Seq::empty(),
                bound_textures: bound_upto(
                    self.bound_textures,
                    self.added_textures,
                    self.added_textures.len() as int,
                ),
                ..self
            }
        }
    }

    /// What working off the texture queue asks of the GPU.
    pub open spec fn texture_commands(self) -> Seq<RenderCommand> {
        if self.layout is None {
            Seq::empty()
        } else {
            texture_commands_upto(
                self.textures,
                self.added_textures,
                self.added_textures.len() as int,
            )
        }
    }

    /// The scene after pending objects were mounted and changed ones brought
    /// up to date.
    pub open spec fn after_mount(self) -> SceneView {
        SceneView { slots: mounted_upto(self.slots, self.slots.len() as int), ..self }
    }

    /// What mounting the pending objects and bringing the changed ones up to
    /// date asks of the GPU.
    pub open spec fn mount_commands(self) -> Seq<RenderCommand> {
        mount_commands_upto(self.slots, self.slots.len() as int)
    }

    /// The scene after removed objects were unmounted and let go.
    pub open spec fn after_unmount(self) -> SceneView {
        SceneView {
            slots: unmounted_upto(self.slots, self.slots.len() as int),
            index: self.index.remove_keys(self.removed_ids()),
            ..self
        }
    }

    /// The ids of the objects that `remove` was called for.
    pub open spec fn removed_ids(self) -> Set<ObjectID> {
        Set::new(|id: ObjectID| self.contains(id) && self.entry(id).removed())
    }

    /// What unmounting the removed objects asks of the GPU.
    pub open spec fn unmount_commands(self) -> Seq<RenderCommand> {
        unmount_commands_upto(self.slots, self.slots.len() as int)
    }

    /// The scene after pending additions and removals were resolved: first
    /// the mounts, then the unmounts.
    pub open spec fn after_resolve(self) -> SceneView {
        self.after_mount().after_unmount()
    }

    /// What resolving pending additions and removals asks of the GPU.
    pub open spec fn resolve_commands(self) -> Seq<RenderCommand> {
        self.mount_commands() + self.after_mount().unmount_commands()
    }

    /// What drawing the objects asks of the GPU, once the buffers are built.
    pub open spec fn draw_commands(self) -> Seq<RenderCommand> {
        draw_commands_upto(
            self.slots,
            self.layout->Some_0,
            self.bound_textures,
            self.slots.len() as int,
        )
    }

    /// The scene after a frame: the buffers are built, the texture queue is
    /// worked off, and pending additions and removals are resolved. Writing
    /// the camera and drawing the objects change nothing.
    pub open spec fn after_frame(self, layout: UniformLayout) -> SceneView {
        self.after_build(layout).after_textures().after_resolve()
    }

    /// What a frame asks of the GPU, in order: build the buffers if this is
    /// the first frame, ready the queued textures, mount and bring up to date,
    /// unmount, write the camera once, draw the objects.
    pub open spec fn frame_commands(self, layout: UniformLayout, camera: CameraUniform) -> Seq<
        RenderCommand,
    > {
        let built = self.after_build(layout);
        let textured = built.after_textures();
        let resolved = textured.after_resolve();
        self.build_commands(layout) + built.texture_commands() + textured.resolve_commands()
            + camera_commands(camera) + resolved.draw_commands()
    }
}

/// The ids of the removed objects in the first `n` slots.
pub open spec fn removed_upto(scene: SceneView, n: int) -> Set<ObjectID> {
    Set::new(
        |id: ObjectID| scene.contains(id) && scene.slot_of(id) < n && scene.entry(id).removed(),
    )
}

/// One slot more: its object joins the set if it was removed.
pub proof fn lemma_removed_upto_step(scene: SceneView, n: int)
    requires
        scene.wf(),
        0 <= n < scene.slots.len(),
    ensures
        removed_upto(scene, n + 1) == (match scene.slots[n] {
            Some(entry) => if entry.removed() {
                removed_upto(scene, n).insert(entry.id)
            } else {
                removed_upto(scene, n)
            },
            None => removed_upto(scene, n),
        }),
{
    let next = removed_upto(scene, n + 1);
    let expected = match scene.slots[n] {
        Some(entry) => if entry.removed() {
            removed_upto(scene, n).insert(entry.id)
        } else {
            removed_upto(scene, n)
        },
        None => removed_upto(scene, n),
    };
    assert forall|id: ObjectID| next.contains(id) <==> expected.contains(id) by {
        if scene.contains(id) {
            assert(scene.slots[scene.index[id] as int] is Some);
        }
        if scene.slots[n] is Some {
            let entry = scene.slots[n]->Some_0;
            assert(scene.index.contains_key(entry.id) && scene.index[entry.id] == n);
        }
    }
    assert(next =~= expected);
}

/// Mounting keeps a scene well formed.
pub proof fn lemma_mount_keeps_wf(scene: SceneView)
    requires
        scene.wf(),
    ensures
        scene.after_mount().wf(),
{
    let after = scene.after_mount();
    assert forall|s: int| 0 <= s < after.slots.len() && (#[trigger] after.slots[s]) is Some implies {
        let id = after.slots[s]->Some_0.id;
        id < after.next_object_id && after.index.contains_key(id) && after.index[id] == s
    } by {
        assert(scene.slots[s] is Some);
    }
    assert forall|id: ObjectID| #[trigger] after.index.contains_key(id) implies after.index[id]
        < after.slots.len() && after.slots[after.index[id] as int] is Some
        && after.slots[after.index[id] as int]->Some_0.id == id by {
        assert(scene.slots[scene.index[id] as int] is Some);
    }
}

/// Letting the removed objects go keeps a scene well formed.
pub proof fn lemma_unmount_keeps_wf(scene: SceneView)
    requires
        scene.wf(),
    ensures
        scene.after_unmount().wf(),
{
    let after = scene.after_unmount();
    assert forall|s: int| 0 <= s < after.slots.len() && (#[trigger] after.slots[s]) is Some implies {
        let id = after.slots[s]->Some_0.id;
        id < after.next_object_id && after.index.contains_key(id) && after.index[id] == s
    } by {
        assert(scene.slots[s] is Some);
    }
    assert forall|id: ObjectID| #[trigger] after.index.contains_key(id) implies after.index[id]
        < after.slots.len() && after.slots[after.index[id] as int] is Some
        && after.slots[after.index[id] as int]->Some_0.id == id by {
        assert(scene.index.contains_key(id));
        assert(scene.slots[scene.index[id] as int] is Some);
    }
}

/// Another object under an id keeps a scene well formed.
pub proof fn lemma_replace_keeps_wf(scene: SceneView, id: ObjectID, object: AnyObject)
    requires
        scene.wf(),
    ensures
        scene.replace(id, object).wf(),
{
    let after = scene.replace(id, object);
    assert forall|s: int| 0 <= s < after.slots.len() && (#[trigger] after.slots[s]) is Some implies {
        let other = after.slots[s]->Some_0.id;
        other < after.next_object_id && after.index.contains_key(other) && after.index[other]
            == s
    } by {
        assert(scene.slots[s] is Some);
    }
    assert forall|other: ObjectID| #[trigger] after.index.contains_key(other) implies
        after.index[other] < after.slots.len() && after.slots[after.index[other] as int] is Some
        && after.slots[after.index[other] as int]->Some_0.id == other by {
        assert(scene.slots[scene.index[other] as int] is Some);
    }
}

/// The empty slot that `first_free` finds is empty, and no lower slot is.
pub proof fn lemma_first_free(slots: Seq<Option<Entry>>, from: int)
    requires
        0 <= from <= slots.len(),
    ensures
        from <= first_free(slots, from) <= slots.len(),
        first_free(slots, from) < slots.len() ==> slots[first_free(slots, from)] is None,
        forall|s: int| from <= s < first_free(slots, from) ==> (#[trigger] slots[s]) is Some,
    decreases slots.len() - from,
{
    if from < slots.len() && slots[from] is Some {
        lemma_first_free(slots, from + 1);
    }
}

/// `add` keeps a scene well formed.
pub proof fn lemma_add_keeps_wf(scene: SceneView, object: AnyObject)
    requires
        scene.wf(),
    ensures
        scene.add(object).wf(),
{
    if scene.add_error() is None {
        lemma_first_free(scene.slots, 0);
        let after = scene.add(object);
        let s = scene.free_slot()->Some_0;
        let id = scene.next_object_id;
        assert(!scene.index.contains_key(id)) by {
            if scene.index.contains_key(id) {
                assert(scene.slots[scene.index[id] as int] is Some);
            }
        }
        assert forall|t: int| 0 <= t < after.slots.len() && (#[trigger] after.slots[t]) is Some implies {
            let tid = after.slots[t]->Some_0.id;
            tid < after.next_object_id && after.index.contains_key(tid) && after.index[tid] == t
        } by {
            if t != s {
                assert(scene.slots[t] is Some);
            }
        }
        assert forall|other: ObjectID| #[trigger] after.index.contains_key(other) implies
            after.index[other] < after.slots.len() && after.slots[after.index[other] as int]
            is Some && after.slots[after.index[other] as int]->Some_0.id == other by {
            if other != id {
                assert(scene.index.contains_key(other));
                assert(scene.slots[scene.index[other] as int] is Some);
            }
        }
    }
}

/// `remove` keeps a scene well formed.
pub proof fn lemma_remove_keeps_wf(scene: SceneView, id: ObjectID)
    requires
        scene.wf(),
    ensures
        scene.remove(id).wf(),
{
    let after = scene.remove(id);
    if scene.contains(id) {
        assert(scene.slots[scene.index[id] as int] is Some);
        assert forall|t: int| 0 <= t < after.slots.len() && (#[trigger] after.slots[t]) is Some implies {
            let tid = after.slots[t]->Some_0.id;
            tid < after.next_object_id && after.index.contains_key(tid) && after.index[tid] == t
        } by {
            assert(scene.slots[t] is Some);
        }
        assert forall|other: ObjectID| #[trigger] after.index.contains_key(other) implies
            after.index[other] < after.slots.len() && after.slots[after.index[other] as int]
            is Some && after.slots[after.index[other] as int]->Some_0.id == other by {
            assert(scene.index.contains_key(other));
            assert(scene.slots[scene.index[other] as int] is Some);
        }
    }
}

/// `add_texture` keeps a scene well formed.
pub proof fn lemma_add_texture_keeps_wf(scene: SceneView, texture: Texture)
    requires
        scene.wf(),
    ensures
        scene.add_texture(texture).wf(),
{
    let after = scene.add_texture(texture);
    if scene.next_texture_id != usize::MAX {
        let id = scene.next_texture_id;
        let last = scene.added_textures.len() as int;
        assert(!scene.textures.contains_key(id));
        assert forall|i: int| 0 <= i < after.added_textures.len() implies
            after.textures.contains_key(#[trigger] after.added_textures[i])
            && !after.bound_textures.contains(after.added_textures[i]) by {
            if i < scene.added_textures.len() {
                assert(scene.textures.contains_key(scene.added_textures[i]));
            }
        }
        assert forall|i: int, j: int| 0 <= i < j < after.added_textures.len() implies
            after.added_textures[i] != after.added_textures[j] by {
            assert(scene.textures.contains_key(scene.added_textures[i]));
        }
        assert forall|other: TextureID| #[trigger] after.textures.contains_key(other) implies
            after.bound_textures.contains(other) || queued(
            after.added_textures,
            after.added_textures.len() as int,
            other,
        ) by {
            if other == id {
                assert(after.added_textures[last] == id);
            } else if !scene.bound_textures.contains(other) {
                assert(scene.textures.contains_key(other));
                let j = choose|j: int|
                    0 <= j < scene.added_textures.len() && j < scene.added_textures.len()
                        && scene.added_textures[j] == other;
                assert(after.added_textures[j] == other);
            }
        }
    }
}

/// Working off the texture queue keeps a scene well formed.
pub proof fn lemma_textures_keeps_wf(scene: SceneView)
    requires
        scene.wf(),
    ensures
        scene.after_textures().wf(),
{
    let after = scene.after_textures();
    if scene.layout is Some {
        assert forall|id: TextureID| #[trigger] after.bound_textures.contains(id) implies
            after.textures.contains_key(id) && after.textures[id].spec_buffer() is Some by {
            if scene.bound_textures.contains(id) {
                assert(scene.textures.contains_key(id));
                if queued(scene.added_textures, scene.added_textures.len() as int, id) {
                    scene.textures[id].lemma_allocated();
                }
            } else {
                let j = choose|j: int|
                    0 <= j < scene.added_textures.len() && j < scene.added_textures.len()
                        && scene.added_textures[j] == id;
                assert(scene.textures.contains_key(scene.added_textures[j]));
                scene.textures[id].lemma_allocated();
            }
        }
        assert forall|id: TextureID| #[trigger] after.textures.contains_key(id) implies
            after.bound_textures.contains(id) by {
            assert(scene.textures.contains_key(id));
        }
    }
}

/// After a frame every texture of the scene is ready: it has its twin on the
/// GPU and a bind group to draw with, and nothing is left in the queue. The
/// placeholder is among them, so that an object without a texture of its own
/// always finds one to bind.
pub proof fn lemma_frame_readies_textures(scene: SceneView, layout: UniformLayout)
    requires
        scene.wf(),
    ensures
        scene.after_frame(layout).added_textures == Seq::<TextureID>::empty(),
        forall|id: TextureID| #[trigger]
            scene.after_frame(layout).textures.contains_key(id) ==> scene.after_frame(
                layout,
            ).bound_textures.contains(id) && scene.after_frame(layout).textures[id].spec_buffer()
                is Some,
        scene.after_frame(layout).bound_textures.contains(DEFAULT_TEXTURE),
        scene.after_frame(layout).textures[DEFAULT_TEXTURE].spec_buffer() is Some,
{
    let built = scene.after_build(layout);
    lemma_textures_keeps_wf(built);
    let textured = built.after_textures();
    assert forall|id: TextureID| #[trigger] textured.textures.contains_key(id) implies
        textured.bound_textures.contains(id) by {
        assert(built.textures.contains_key(id));
    }
    assert(textured.textures.contains_key(DEFAULT_TEXTURE));
}

/// A frame keeps a scene well formed.
pub proof fn lemma_frame_keeps_wf(scene: SceneView, layout: UniformLayout)
    requires
        scene.wf(),
    ensures
        scene.after_frame(layout).wf(),
{
    let built = scene.after_build(layout);
    assert(built.wf());
    lemma_textures_keeps_wf(built);
    let textured = built.after_textures();
    lemma_mount_keeps_wf(textured);
    lemma_unmount_keeps_wf(textured.after_mount());
}

} // verus!
