//! The scene: a registry of objects and textures.
//!
//! Objects come and go through `add` and `remove`, which ask nothing of the
//! GPU. What is asked of it is decided once per frame, in `render`, and
//! written to the frame's list of commands: mounts, unmounts, one camera
//! record, and for every object its uniform record, its bindings and its
//! draw call.

use vstd::prelude::*;
use std::collections::{HashMap, HashSet};
use crate::color::{debug_magenta, opaque_black};
use crate::layout::{slot_offset, UniformLayout, ACTOR_UNIFORM_SIZE, CAMERA_UNIFORM_SIZE, MAX_OBJECTS};
use crate::material::{MaterialKind, PipelineFamily};
use crate::pipelines::{ActorUniform, CameraUniform};
use crate::render_context::{RenderCommand, RenderContext, UniformBuffer};
use crate::scene_object::{AnyObject, SceneObject};
use crate::scene_view::{
    bound_upto, camera_commands, draw_commands_upto, first_free, lemma_add_keeps_wf,
    lemma_add_texture_keeps_wf, lemma_mount_keeps_wf, lemma_remove_keeps_wf,
    lemma_removed_upto_step, lemma_replace_keeps_wf, lemma_textures_keeps_wf,
    lemma_unmount_keeps_wf, line_build_commands, mount_commands_upto, mounted_upto, queued,
    removed_upto, simple_build_commands, texture_commands_upto, textures_upto,
    unmount_commands_upto, unmounted_upto, Entry, Life, SceneView,
};
use crate::texture::{Texture, TextureID, DEFAULT_TEXTURE};

verus! {

/// The identity of a scene object: handed out once, never again.
pub type ObjectID = usize;

/// The id of the first object of a scene.
pub const FIRST_OBJECT_ID: ObjectID = 1;

/// Why a scene could not take what it was given.
#[derive(Clone, Copy, Debug, PartialEq, Eq, Structural)]
pub enum SceneError {
    /// Every slot of the per-object uniform buffer is taken.
    Full,
    /// Every id has been handed out.
    IdsExhausted,
}

/// The uniform buffers of the simple pipeline family, and the textures that
/// have a bind group to draw with.
pub struct SceneUniforms {
    layout: UniformLayout,
    texture_bind_groups: HashSet<TextureID>,
}

/// The uniform buffers of the line pipeline family.
pub struct DebugUniforms {
    layout: UniformLayout,
}

/// Writes down the upload of one object's record into the slot of the given
/// index of a family's per-object buffer.
fn record_actor(
    ctx: &mut RenderContext,
    family: PipelineFamily,
    layout: UniformLayout,
    index: u64,
    contents: ActorUniform,
)
    requires
        index < MAX_OBJECTS,
    ensures
        final(ctx).layout == old(ctx).layout,
        final(ctx).camera == old(ctx).camera,
        final(ctx).commands@ == old(ctx).commands@.push(
            RenderCommand::WriteActor {
                family,
                offset: slot_offset(layout.spec_alignment(), index) as u64,
                actor: contents,
            },
        ),
{
    let offset = layout.actor_offset(index).unwrap();
    ctx.record(RenderCommand::WriteActor { family, offset: offset as u64, actor: contents });
}

/// Writes down the binding of the slot of the given index of a family's
/// per-object buffer.
fn record_bind_actor(
    ctx: &mut RenderContext,
    family: PipelineFamily,
    layout: UniformLayout,
    index: u64,
)
    requires
        index < MAX_OBJECTS,
    ensures
        final(ctx).layout == old(ctx).layout,
        final(ctx).camera == old(ctx).camera,
        final(ctx).commands@ == old(ctx).commands@.push(
            RenderCommand::BindActor {
                family,
                dynamic_offset: slot_offset(layout.spec_alignment(), index) as u32,
            },
        ),
{
    let offset = layout.actor_offset(index).unwrap();
    ctx.record(RenderCommand::BindActor { family, dynamic_offset: offset });
}

impl SceneUniforms {
    /// The layout that the buffers were built with.
    pub closed spec fn spec_layout(&self) -> UniformLayout {
        self.layout
    }

    /// The textures that have a bind group to draw with.
    pub closed spec fn spec_bound(&self) -> Set<TextureID> {
        self.texture_bind_groups@
    }

    /// Builds the uniform buffers of the simple pipeline family with the
    /// layout of the context: writes down what that asks of the GPU.
    pub fn new(ctx: &mut RenderContext) -> (uniforms: SceneUniforms)
        ensures
            uniforms.spec_layout() == old(ctx).layout,
            uniforms.spec_bound() == Set::<TextureID>::empty(),
            final(ctx).layout == old(ctx).layout,
            final(ctx).camera == old(ctx).camera,
            final(ctx).commands@ == old(ctx).commands@ + simple_build_commands(old(ctx).layout),
    {
        let layout = ctx.layout;
        let family = PipelineFamily::Simple;
        let alignment = layout.alignment();
        ctx.record(RenderCommand::CreatePipeline { family });
        ctx.record(
            RenderCommand::CreateBuffer {
                family,
                buffer: UniformBuffer::Camera,
                size: layout.camera_buffer_size(),
            },
        );
        ctx.record(
            RenderCommand::CreateBuffer {
                family,
                buffer: UniformBuffer::Actor,
                size: layout.actor_buffer_size(),
            },
        );
        ctx.record(
            RenderCommand::CreateBuffer {
                family,
                buffer: UniformBuffer::TextureEnabled,
                size: layout.enabled_buffer_size(),
            },
        );
        ctx.record(RenderCommand::WriteFlag { family, offset: 0, value: 0 });
        ctx.record(RenderCommand::WriteFlag { family, offset: alignment as u64, value: 1 });
        ctx.record(
            RenderCommand::CreateBindGroup {
                family,
                camera_size: CAMERA_UNIFORM_SIZE,
                actor_size: ACTOR_UNIFORM_SIZE,
            },
        );
        assert(ctx.commands@ =~= old(ctx).commands@ + simple_build_commands(old(ctx).layout));
        SceneUniforms { layout, texture_bind_groups: HashSet::new() }
    }

    /// Writes down the upload of the camera record.
    fn set_camera(&self, ctx: &mut RenderContext, camera: CameraUniform)
        ensures
            final(ctx).layout == old(ctx).layout,
            final(ctx).camera == old(ctx).camera,
            final(ctx).commands@ == old(ctx).commands@.push(
                RenderCommand::WriteCamera { family: PipelineFamily::Simple, camera },
            ),
    {
        ctx.record(RenderCommand::WriteCamera { family: PipelineFamily::Simple, camera });
    }

    /// Writes down the upload of one object's record into the slot of the
    /// given index.
    fn set_actor(&self, ctx: &mut RenderContext, index: u64, contents: ActorUniform)
        requires
            index < MAX_OBJECTS,
        ensures
            final(ctx).layout == old(ctx).layout,
            final(ctx).camera == old(ctx).camera,
            final(ctx).commands@ == old(ctx).commands@.push(
                RenderCommand::WriteActor {
                    family: PipelineFamily::Simple,
                    offset: slot_offset(self.spec_layout().spec_alignment(), index) as u64,
                    actor: contents,
                },
            ),
    {
        record_actor(ctx, PipelineFamily::Simple, self.layout, index, contents);
    }

    /// Writes down the binding of the slot of the given index.
    fn bind_actor(&self, ctx: &mut RenderContext, index: u64)
        requires
            index < MAX_OBJECTS,
        ensures
            final(ctx).layout == old(ctx).layout,
            final(ctx).camera == old(ctx).camera,
            final(ctx).commands@ == old(ctx).commands@.push(
                RenderCommand::BindActor {
                    family: PipelineFamily::Simple,
                    dynamic_offset: slot_offset(self.spec_layout().spec_alignment(), index) as u32,
                },
            ),
    {
        record_bind_actor(ctx, PipelineFamily::Simple, self.layout, index);
    }

    /// Writes down the binding of a texture, with the flag "off" for the
    /// placeholder and "on" for every other; nothing where the texture has no
    /// bind group.
    fn bind_texture(&self, ctx: &mut RenderContext, id: TextureID)
        ensures
            final(ctx).layout == old(ctx).layout,
            final(ctx).camera == old(ctx).camera,
            final(ctx).commands@ == old(ctx).commands@ + (if self.spec_bound().contains(id) {
                seq![
                    RenderCommand::BindTexture {
                        family: PipelineFamily::Simple,
                        texture: id,
                        enabled_offset: self.spec_layout().spec_enabled_offset(id),
                    },
                ]
            } else {
                Seq::<RenderCommand>::empty()
            }),
    {
        if self.texture_bind_groups.contains(&id) {
            let enabled_offset = self.layout.enabled_offset(id);
            ctx.record(
                RenderCommand::BindTexture {
                    family: PipelineFamily::Simple,
                    texture: id,
                    enabled_offset,
                },
            );
            assert(ctx.commands@ =~= old(ctx).commands@ + seq![
                RenderCommand::BindTexture {
                    family: PipelineFamily::Simple,
                    texture: id,
                    enabled_offset,
                },
            ]);
        } else {
            assert(ctx.commands@ =~= old(ctx).commands@ + Seq::<RenderCommand>::empty());
        }
    }

    /// Writes down the making of the bind group of a texture, and takes note
    /// that the texture has one.
    fn add_texture(&mut self, ctx: &mut RenderContext, id: TextureID)
        ensures
            final(self).spec_layout() == old(self).spec_layout(),
            final(self).spec_bound() == old(self).spec_bound().insert(id),
            final(ctx).layout == old(ctx).layout,
            final(ctx).camera == old(ctx).camera,
            final(ctx).commands@ == old(ctx).commands@.push(
                RenderCommand::CreateTextureBindGroup {
                    family: PipelineFamily::Simple,
                    texture: id,
                },
            ),
    {
        ctx.record(
            RenderCommand::CreateTextureBindGroup { family: PipelineFamily::Simple, texture: id },
        );
        self.texture_bind_groups.insert(id);
    }
}

impl DebugUniforms {
    /// The layout that the buffers were built with.
    pub closed spec fn spec_layout(&self) -> UniformLayout {
        self.layout
    }

    /// Builds the uniform buffers of the line pipeline family with the layout
    /// of the context: writes down what that asks of the GPU.
    pub fn new(ctx: &mut RenderContext) -> (uniforms: DebugUniforms)
        ensures
            uniforms.spec_layout() == old(ctx).layout,
            final(ctx).layout == old(ctx).layout,
            final(ctx).camera == old(ctx).camera,
            final(ctx).commands@ == old(ctx).commands@ + line_build_commands(old(ctx).layout),
    {
        let layout = ctx.layout;
        let family = PipelineFamily::Line;
        ctx.record(RenderCommand::CreatePipeline { family });
        ctx.record(
            RenderCommand::CreateBuffer {
                family,
                buffer: UniformBuffer::Camera,
                size: layout.camera_buffer_size(),
            },
        );
        ctx.record(
            RenderCommand::CreateBuffer {
                family,
                buffer: UniformBuffer::Actor,
                size: layout.actor_buffer_size(),
            },
        );
        ctx.record(
            RenderCommand::CreateBindGroup {
                family,
                camera_size: CAMERA_UNIFORM_SIZE,
                actor_size: ACTOR_UNIFORM_SIZE,
            },
        );
        assert(ctx.commands@ =~= old(ctx).commands@ + line_build_commands(old(ctx).layout));
        DebugUniforms { layout }
    }

    /// Writes down the upload of the camera record.
    fn set_camera(&self, ctx: &mut RenderContext, camera: CameraUniform)
        ensures
            final(ctx).layout == old(ctx).layout,
            final(ctx).camera == old(ctx).camera,
            final(ctx).commands@ == old(ctx).commands@.push(
                RenderCommand::WriteCamera { family: PipelineFamily::Line, camera },
            ),
    {
        ctx.record(RenderCommand::WriteCamera { family: PipelineFamily::Line, camera });
    }

    /// Writes down the upload of one object's record into the slot of the
    /// given index.
    fn set_actor(&self, ctx: &mut RenderContext, index: u64, contents: ActorUniform)
        requires
            index < MAX_OBJECTS,
        ensures
            final(ctx).layout == old(ctx).layout,
            final(ctx).camera == old(ctx).camera,
            final(ctx).commands@ == old(ctx).commands@.push(
                RenderCommand::WriteActor {
                    family: PipelineFamily::Line,
                    offset: slot_offset(self.spec_layout().spec_alignment(), index) as u64,
                    actor: contents,
                },
            ),
    {
        record_actor(ctx, PipelineFamily::Line, self.layout, index, contents);
    }

    /// Writes down the binding of the slot of the given index.
    fn bind_actor(&self, ctx: &mut RenderContext, index: u64)
        requires
            index < MAX_OBJECTS,
        ensures
            final(ctx).layout == old(ctx).layout,
            final(ctx).camera == old(ctx).camera,
            final(ctx).commands@ == old(ctx).commands@.push(
                RenderCommand::BindActor {
                    family: PipelineFamily::Line,
                    dynamic_offset: slot_offset(self.spec_layout().spec_alignment(), index) as u32,
                },
            ),
    {
        record_bind_actor(ctx, PipelineFamily::Line, self.layout, index);
    }
}

/// A registry of objects and textures.
pub struct Scene {
    slots: Vec<Option<Entry>>,
    index: HashMap<ObjectID, usize>,
    next_object_id: ObjectID,
    textures: HashMap<TextureID, Texture>,
    added_textures: Vec<TextureID>,
    next_texture_id: TextureID,
    uniforms: Option<SceneUniforms>,
    debug_uniforms: Option<DebugUniforms>,
}

impl View for Scene {
    type V = SceneView;

    closed spec fn view(&self) -> SceneView {
        SceneView {
            slots: self.slots@,
            index: self.index@,
            next_object_id: self.next_object_id,
            textures: self.textures@,
            added_textures: self.added_textures@,
            next_texture_id: self.next_texture_id,
            layout: match self.uniforms {
                Some(uniforms) => Some(uniforms.layout),
                None => None,
            },
            bound_textures: match self.uniforms {
                Some(uniforms) => uniforms.texture_bind_groups@,
                None => Set::empty(),
            },
        }
    }
}

impl Scene {
    /// The two sets of uniform buffers are built together, for one layout.
    pub closed spec fn consistent(&self) -> bool {
        match self.uniforms {
            Some(uniforms) => self.debug_uniforms matches Some(debug) && debug.layout
                == uniforms.layout,
            None => self.debug_uniforms is None,
        }
    }

    /// What every scene keeps true of itself.
    pub open spec fn wf(&self) -> bool {
        self@.wf() && self.consistent()
    }

    /// A scene without objects. It holds the placeholder texture, which waits
    /// to be made ready with the first frame.
    pub fn new() -> (scene: Scene)
        ensures
            scene.wf(),
            scene@.slots == Seq::<Option<Entry>>::empty(),
            scene@.index == Map::<ObjectID, usize>::empty(),
            scene@.next_object_id == FIRST_OBJECT_ID,
            scene@.textures.dom() == set![DEFAULT_TEXTURE],
            scene@.textures[DEFAULT_TEXTURE].spec_width() == 1,
            scene@.textures[DEFAULT_TEXTURE].spec_height() == 1,
            scene@.textures[DEFAULT_TEXTURE].spec_pixels() == seq![255u8, 255u8, 255u8, 255u8],
            scene@.textures[DEFAULT_TEXTURE].spec_buffer() is None,
            scene@.added_textures == seq![DEFAULT_TEXTURE],
            scene@.next_texture_id == 1,
            scene@.layout is None,
            scene@.bound_textures == Set::<TextureID>::empty(),
    {
        let mut textures: HashMap<TextureID, Texture> = HashMap::new();
        textures.insert(DEFAULT_TEXTURE, Texture::placeholder());
        let mut added_textures: Vec<TextureID> = Vec::new();
        added_textures.push(DEFAULT_TEXTURE);
        let scene = Scene {
            slots: Vec::new(),
            index: HashMap::new(),
            next_object_id: FIRST_OBJECT_ID,
            textures,
            added_textures,
            next_texture_id: 1,
            uniforms: None,
            debug_uniforms: None,
        };
        assert(scene@.textures.dom() =~= set![DEFAULT_TEXTURE]);
        assert(scene@.added_textures =~= seq![DEFAULT_TEXTURE]);
        assert(scene@.added_textures[0] == DEFAULT_TEXTURE);
        scene
    }

    /// A scene without objects that hands out ids from the given ones on, so
    /// that it can go on where another scene left off and no id is ever handed
    /// out twice. Objects get no id below the first, and textures none below
    /// one, which comes after the placeholder's.
    pub fn starting_at(next_object_id: ObjectID, next_texture_id: TextureID) -> (scene: Scene)
        ensures
            scene.wf(),
            scene@.slots == Seq::<Option<Entry>>::empty(),
            scene@.index == Map::<ObjectID, usize>::empty(),
            scene@.next_object_id == (if next_object_id < FIRST_OBJECT_ID {
                FIRST_OBJECT_ID
            } else {
                next_object_id
            }),
            scene@.textures.dom() == set![DEFAULT_TEXTURE],
            scene@.textures[DEFAULT_TEXTURE].spec_width() == 1,
            scene@.textures[DEFAULT_TEXTURE].spec_height() == 1,
            scene@.textures[DEFAULT_TEXTURE].spec_pixels() == seq![255u8, 255u8, 255u8, 255u8],
            scene@.textures[DEFAULT_TEXTURE].spec_buffer() is None,
            scene@.added_textures == seq![DEFAULT_TEXTURE],
            scene@.next_texture_id == (if next_texture_id < 1 {
                1
            } else {
                next_texture_id
            }),
            scene@.layout is None,
            scene@.bound_textures == Set::<TextureID>::empty(),
    {
        let mut scene = Scene::new();
        if next_object_id > scene.next_object_id {
            scene.next_object_id = next_object_id;
        }
        if next_texture_id > scene.next_texture_id {
            scene.next_texture_id = next_texture_id;
        }
        scene
    }

    /// The id that the next object gets.
    pub fn next_object_id(&self) -> (id: ObjectID)
        ensures
            id == self@.next_object_id,
    {
        self.next_object_id
    }

    /// The id that the next texture gets.
    pub fn next_texture_id(&self) -> (id: TextureID)
        ensures
            id == self@.next_texture_id,
    {
        self.next_texture_id
    }

    /// The lowest empty slot; the number of slots where all of them are taken.
    fn find_free_slot(&self) -> (s: usize)
        ensures
            s == first_free(self.slots@, 0),
            s <= self.slots@.len(),
            s < self.slots@.len() ==> self.slots@[s as int] is None,
    {
        let mut s: usize = 0;
        while s < self.slots.len() && self.slots[s].is_some()
            invariant
                s <= self.slots@.len(),
                first_free(self.slots@, 0) == first_free(self.slots@, s as int),
            decreases self.slots@.len() - s,
        {
            s = s + 1;
        }
        s
    }

    /// Takes the object into the scene and returns its id. The object gets the
    /// lowest empty slot and waits to be mounted with the next frame; nothing
    /// is asked of the GPU now. Fails, and leaves the scene as it was, where
    /// every slot is taken or every id has been handed out.
    pub fn add<O: SceneObject>(&mut self, object: O) -> (r: Result<ObjectID, SceneError>)
        requires
            old(self).wf(),
        ensures
            final(self).wf(),
            final(self)@ == old(self)@.add(object.spec_upcast()),
            r == (match old(self)@.add_error() {
                Some(error) => Err::<ObjectID, SceneError>(error),
                None => Ok(old(self)@.next_object_id),
            }),
    {
        self.add_any(object.upcast())
    }

    /// `add` for an object of any kind.
    pub fn add_any(&mut self, object: AnyObject) -> (r: Result<ObjectID, SceneError>)
        requires
            old(self).wf(),
        ensures
            final(self).wf(),
            final(self)@ == old(self)@.add(object),
            r == (match old(self)@.add_error() {
                Some(error) => Err::<ObjectID, SceneError>(error),
                None => Ok(old(self)@.next_object_id),
            }),
    {
        let s = self.find_free_slot();
        if s as u64 >= MAX_OBJECTS {
            return Err(SceneError::Full);
        }
        if self.next_object_id == usize::MAX {
            return Err(SceneError::IdsExhausted);
        }
        let id = self.next_object_id;
        let entry = Entry { id, object, life: Life::Pending };
        if s < self.slots.len() {
            self.slots[s] = Some(entry);
        } else {
            self.slots.push(Some(entry));
        }
        self.index.insert(id, s);
        self.next_object_id = id + 1;
        proof {
            let before = old(self)@;
            assert(self@.slots =~= before.add(object).slots);
            assert(self@.index =~= before.add(object).index);
            lemma_add_keeps_wf(before, object);
        }
        Ok(id)
    }

    /// Whether the scene holds an object of the given id.
    pub fn contains(&self, id: ObjectID) -> (b: bool)
        ensures
            b == self@.contains(id),
    {
        self.index.contains_key(&id)
    }

    /// The slot of the object of the given id, if the scene holds one.
    pub fn slot_of(&self, id: ObjectID) -> (s: Option<usize>)
        requires
            self.wf(),
        ensures
            s == (if self@.contains(id) {
                Some(self@.index[id])
            } else {
                None
            }),
            s matches Some(slot) ==> slot < MAX_OBJECTS,
    {
        match self.index.get(&id) {
            Some(slot) => Some(*slot),
            None => None,
        }
    }

    /// The object of the given id, if the scene holds one. A mounted object
    /// that `remove` was called for is held until the next frame.
    pub fn get(&self, id: ObjectID) -> (r: Option<&AnyObject>)
        requires
            self.wf(),
        ensures
            match r {
                Some(object) => self@.object(id) == Some(*object),
                None => self@.object(id) is None,
            },
    {
        match self.index.get(&id) {
            Some(slot) => {
                let s = *slot;
                match &self.slots[s] {
                    Some(entry) => Some(&entry.object),
                    None => None,
                }
            },
            None => None,
        }
    }

    /// The object of the given id, to be changed in place, if the scene holds
    /// one.
    pub fn get_mut(&mut self, id: ObjectID) -> (r: Option<&mut AnyObject>)
        requires
            old(self).wf(),
        ensures
            final(self).wf(),
            match r {
                Some(object) => old(self)@.object(id) == Some(*object) && final(self)@ == old(
                    self,
                )@.replace(id, *final(object)),
                None => old(self)@.object(id) is None && final(self)@ == old(self)@,
            },
    {
        let slot = match self.index.get(&id) {
            Some(slot) => Some(*slot),
            None => None,
        };
        proof {
            let before = old(self)@;
            assert forall|object: AnyObject| #[trigger] before.replace(id, object).wf() by {
                lemma_replace_keeps_wf(before, id, object);
            }
        }
        match slot {
            Some(s) => {
                match &mut self.slots[s] {
                    Some(entry) => Some(&mut entry.object),
                    None => None,
                }
            },
            None => None,
        }
    }

    /// Hands the object of the given id to the handler, if the scene holds one
    /// and it is of the kind `O`: the handler is called with it, and what the
    /// handler promises of that call holds. Otherwise nothing happens: the
    /// handler is not called, and nothing tells the caller so. The scene stays
    /// as it is either way.
    pub fn with_object<O: SceneObject, F: FnOnce(&O)>(&self, id: ObjectID, handler: F)
        requires
            self.wf(),
            self@.typed::<O>(id) matches Some(object) ==> call_requires(handler, (&object,)),
        ensures
            self@.typed::<O>(id) matches Some(object) ==> call_ensures(handler, (&object,), ()),
    {
        match self.get(id) {
            Some(any) => {
                match O::downcast_ref(any) {
                    Some(object) => {
                        handler(object);
                    },
                    None => {},
                }
            },
            None => {},
        }
    }

    /// Puts in place of the object of the given id what the handler makes of
    /// it, if the scene holds one and it is of the kind `O`. Otherwise nothing
    /// happens: the handler is not called, the scene stays as it is, and
    /// nothing tells the caller so.
    pub fn with_object_mut<O: SceneObject, F: FnOnce(O) -> O>(&mut self, id: ObjectID, handler: F)
        requires
            old(self).wf(),
            old(self)@.typed::<O>(id) matches Some(object) ==> call_requires(handler, (object,)),
        ensures
            final(self).wf(),
            match old(self)@.typed::<O>(id) {
                Some(object) => final(self)@.typed::<O>(id) matches Some(changed) && call_ensures(
                    handler,
                    (object,),
                    changed,
                ) && final(self)@ == old(self)@.replace(id, changed.spec_upcast()),
                None => final(self)@ == old(self)@,
            },
    {
        let slot = match self.index.get(&id) {
            Some(slot) => Some(*slot),
            None => None,
        };
        match slot {
            Some(s) => {
                let taken = self.slots[s].take();
                let Entry { id: entry_id, object, life } = taken.unwrap();
                match O::downcast(object) {
                    Ok(typed) => {
                        let changed = handler(typed);
                        proof {
                            changed.lemma_downcast_upcast();
                            lemma_replace_keeps_wf(old(self)@, id, changed.spec_upcast());
                        }
                        self.slots[s] = Some(
                            Entry { id: entry_id, object: changed.upcast(), life },
                        );
                        assert(self@.slots =~= old(self)@.replace(id, changed.spec_upcast()).slots);
                    },
                    Err(back) => {
                        self.slots[s] = Some(Entry { id: entry_id, object: back, life });
                        assert(self@.slots =~= old(self)@.slots);
                    },
                }
            },
            None => {},
        }
    }

    /// Removes the object of the given id, if the scene holds one. Nothing is
    /// asked of the GPU now. An object that was never mounted is let go at
    /// once: it is never mounted and never unmounted. A mounted object is
    /// marked and held until the next frame, which unmounts it and lets it go.
    /// A second call changes nothing.
    pub fn remove(&mut self, id: ObjectID)
        requires
            old(self).wf(),
        ensures
            final(self).wf(),
            final(self)@ == old(self)@.remove(id),
    {
        let slot = match self.index.get(&id) {
            Some(slot) => Some(*slot),
            None => None,
        };
        match slot {
            Some(s) => {
                let pending = match &self.slots[s] {
                    Some(entry) => entry.life == Life::Pending,
                    None => false,
                };
                if pending {
                    self.slots[s] = None;
                    self.index.remove(&id);
                } else {
                    match &mut self.slots[s] {
                        Some(entry) => {
                            entry.life = Life::Leaving;
                        },
                        None => {},
                    }
                }
                proof {
                    assert(self@.slots =~= old(self)@.remove(id).slots);
                    assert(self@.index =~= old(self)@.remove(id).index);
                    lemma_remove_keeps_wf(old(self)@, id);
                }
            },
            None => {},
        }
    }

    /// Takes the texture into the scene and returns its id. The texture waits
    /// to be made ready on the GPU with the next frame. Fails, and leaves the
    /// scene as it was, where every id has been handed out.
    pub fn add_texture(&mut self, texture: Texture) -> (r: Result<TextureID, SceneError>)
        requires
            old(self).wf(),
        ensures
            final(self).wf(),
            final(self)@ == old(self)@.add_texture(texture),
            r == (if old(self)@.next_texture_id == usize::MAX {
                Err::<TextureID, SceneError>(SceneError::IdsExhausted)
            } else {
                Ok(old(self)@.next_texture_id)
            }),
    {
        if self.next_texture_id == usize::MAX {
            return Err(SceneError::IdsExhausted);
        }
        let id = self.next_texture_id;
        self.textures.insert(id, texture);
        self.added_textures.push(id);
        self.next_texture_id = id + 1;
        proof {
            assert(self@ == old(self)@.add_texture(texture));
            lemma_add_texture_keeps_wf(old(self)@, texture);
        }
        Ok(id)
    }

    /// The texture of the given id, if the scene holds one.
    pub fn texture(&self, id: TextureID) -> (r: Option<&Texture>)
        ensures
            match r {
                Some(texture) => self@.textures.contains_key(id) && *texture == self@.textures[id],
                None => !self@.textures.contains_key(id),
            },
    {
        self.textures.get(&id)
    }

    /// Whether the texture of the given id is ready: it has a bind group to
    /// draw with.
    pub fn is_texture_bound(&self, id: TextureID) -> (b: bool)
        ensures
            b == self@.bound_textures.contains(id),
    {
        match &self.uniforms {
            Some(uniforms) => uniforms.texture_bind_groups.contains(&id),
            None => false,
        }
    }

    /// The layout of the uniform buffers, once they are built.
    pub fn layout(&self) -> (l: Option<UniformLayout>)
        ensures
            l == self@.layout,
    {
        match &self.uniforms {
            Some(uniforms) => Some(uniforms.layout),
            None => None,
        }
    }

    /// How many slots are taken, counting objects that wait to be let go.
    pub fn len(&self) -> (n: usize)
        ensures
            n == self@.index.len(),
    {
        self.index.len()
    }

    /// Builds the uniform buffers of both built-in pipeline families with the
    /// layout of the context, unless they are built: this happens with the
    /// first frame, and never again.
    fn build_uniforms(&mut self, ctx: &mut RenderContext)
        requires
            old(self).wf(),
        ensures
            final(self).wf(),
            final(self)@ == old(self)@.after_build(old(ctx).layout),
            final(ctx).layout == old(ctx).layout,
            final(ctx).camera == old(ctx).camera,
            final(ctx).commands@ == old(ctx).commands@ + old(self)@.build_commands(
                old(ctx).layout,
            ),
    {
        if self.uniforms.is_none() {
            let uniforms = SceneUniforms::new(ctx);
            let debug_uniforms = DebugUniforms::new(ctx);
            self.uniforms = Some(uniforms);
            self.debug_uniforms = Some(debug_uniforms);
            assert(ctx.commands@ =~= old(ctx).commands@ + old(self)@.build_commands(
                old(ctx).layout,
            ));
        } else {
            assert(ctx.commands@ =~= old(ctx).commands@ + old(self)@.build_commands(
                old(ctx).layout,
            ));
        }
    }

    /// Works off the queue of added textures, once the uniform buffers are
    /// built: each texture gets its GPU twin, its pixels are copied, and its
    /// bind group is made. Before the buffers are built nothing happens and
    /// the queue stays.
    pub fn process_texture_queue(&mut self, ctx: &mut RenderContext)
        requires
            old(self).wf(),
        ensures
            final(self).wf(),
            final(self)@ == old(self)@.after_textures(),
            final(ctx).layout == old(ctx).layout,
            final(ctx).camera == old(ctx).camera,
            final(ctx).commands@ == old(ctx).commands@ + old(self)@.texture_commands(),
    {
        if self.uniforms.is_none() {
            assert(ctx.commands@ =~= old(ctx).commands@ + old(self)@.texture_commands());
            return ;
        }
        let ghost before = self@;
        let ghost recorded = ctx.commands@;
        let mut queue: Vec<TextureID> = Vec::new();
        std::mem::swap(&mut queue, &mut self.added_textures);
        let mut uniforms = self.uniforms.take().unwrap();
        let mut i: usize = 0;
        while i < queue.len()
            invariant
                i <= queue@.len(),
                queue@ == before.added_textures,
                before.wf(),
                before.layout == Some(uniforms.spec_layout()),
                self.slots@ == before.slots,
                self.index@ == before.index,
                self.next_object_id == before.next_object_id,
                self.next_texture_id == before.next_texture_id,
                self.added_textures@ == Seq::<TextureID>::empty(),
                self.debug_uniforms == old(self).debug_uniforms,
                self.textures@ == textures_upto(before.textures, queue@, i as int),
                uniforms.spec_bound() == bound_upto(before.bound_textures, queue@, i as int),
                ctx.layout == old(ctx).layout,
                ctx.camera == old(ctx).camera,
                ctx.commands@ == recorded + texture_commands_upto(
                    before.textures,
                    queue@,
                    i as int,
                ),
            decreases queue@.len() - i,
        {
            let id = queue[i];
            assert(before.textures.contains_key(before.added_textures[i as int]));
            assert(!queued(queue@, i as int, id)) by {
                if queued(queue@, i as int, id) {
                    let j = choose|j: int| 0 <= j < i && j < queue@.len() && queue@[j] == id;
                    assert(before.added_textures[j] != before.added_textures[i as int]);
                }
            }
            let taken = self.textures.remove(&id);
            let mut texture = taken.unwrap();
            let width = texture.width();
            let height = texture.height();
            texture.allocate();
            ctx.record(RenderCommand::AllocateTexture { texture: id, width, height });
            ctx.record(RenderCommand::UploadTexture { texture: id });
            uniforms.add_texture(ctx, id);
            self.textures.insert(id, texture);
            proof {
                assert(queued(queue@, i + 1, id));
                assert forall|other: TextureID| queued(queue@, i + 1, other) <==> (other == id
                    || queued(queue@, i as int, other)) by {
                    if queued(queue@, i + 1, other) {
                        let j = choose|j: int|
                            0 <= j < i + 1 && j < queue@.len() && queue@[j] == other;
                        if j < i {
                            assert(queued(queue@, i as int, other));
                        }
                    }
                    if queued(queue@, i as int, other) {
                        let j = choose|j: int|
                            0 <= j < i && j < queue@.len() && queue@[j] == other;
                        assert(0 <= j < i + 1 && j < queue@.len() && queue@[j] == other);
                    }
                }
                assert(self.textures@ =~= textures_upto(before.textures, queue@, i + 1));
                assert(uniforms.spec_bound() =~= bound_upto(
                    before.bound_textures,
                    queue@,
                    i + 1,
                ));
                assert(ctx.commands@ =~= recorded + texture_commands_upto(
                    before.textures,
                    queue@,
                    i + 1,
                ));
            }
            i = i + 1;
        }
        self.uniforms = Some(uniforms);
        proof {
            let after = self@;
            let expected = before.after_textures();
            assert(after.added_textures =~= expected.added_textures);
            assert(after.bound_textures =~= expected.bound_textures);
            assert(after.textures =~= expected.textures);
            assert(after == expected);
            lemma_textures_keeps_wf(before);
        }
    }

    /// Mounts the objects that wait for it, and replaces the vertex buffers of
    /// the objects that were changed, slot by slot.
    fn mount_added(&mut self, ctx: &mut RenderContext)
        requires
            old(self).wf(),
        ensures
            final(self).wf(),
            final(self)@ == old(self)@.after_mount(),
            final(ctx).layout == old(ctx).layout,
            final(ctx).camera == old(ctx).camera,
            final(ctx).commands@ == old(ctx).commands@ + old(self)@.mount_commands(),
    {
        let ghost before = self@;
        let ghost recorded = ctx.commands@;
        let mut s: usize = 0;
        while s < self.slots.len()
            invariant
                s <= self.slots@.len(),
                self.slots@ == mounted_upto(before.slots, s as int),
                self@ == (SceneView { slots: self.slots@, ..before }),
                self.consistent(),
                ctx.layout == old(ctx).layout,
                ctx.camera == old(ctx).camera,
                ctx.commands@ == recorded + mount_commands_upto(before.slots, s as int),
            decreases self.slots@.len() - s,
        {
            let ghost slots_before = self.slots@;
            match &mut self.slots[s] {
                Some(entry) => {
                    match entry.life {
                        Life::Pending => {
                            entry.object.mount();
                            entry.life = Life::Mounted;
                            ctx.record(RenderCommand::Mount { object: entry.id });
                        },
                        Life::Mounted => {
                            if entry.object.needs_refresh() {
                                entry.object.refresh();
                                ctx.record(RenderCommand::Refresh { object: entry.id });
                            }
                        },
                        Life::Leaving => {},
                    }
                },
                None => {},
            }
            proof {
                assert(slots_before[s as int] == before.slots[s as int]);
                assert(self.slots@ =~= mounted_upto(before.slots, s + 1));
                assert(ctx.commands@ =~= recorded + mount_commands_upto(before.slots, s + 1));
            }
            s = s + 1;
        }
        proof {
            lemma_mount_keeps_wf(before);
        }
    }

    /// Unmounts the objects that are leaving and lets them go, slot by slot.
    fn unmount_removed(&mut self, ctx: &mut RenderContext)
        requires
            old(self).wf(),
        ensures
            final(self).wf(),
            final(self)@ == old(self)@.after_unmount(),
            final(ctx).layout == old(ctx).layout,
            final(ctx).camera == old(ctx).camera,
            final(ctx).commands@ == old(ctx).commands@ + old(self)@.unmount_commands(),
    {
        let ghost before = self@;
        let ghost recorded = ctx.commands@;
        let mut s: usize = 0;
        while s < self.slots.len()
            invariant
                s <= self.slots@.len(),
                before.wf(),
                self.slots@ == unmounted_upto(before.slots, s as int),
                self.index@ == before.index.remove_keys(removed_upto(before, s as int)),
                self@ == (SceneView { slots: self.slots@, index: self.index@, ..before }),
                self.consistent(),
                ctx.layout == old(ctx).layout,
                ctx.camera == old(ctx).camera,
                ctx.commands@ == recorded + unmount_commands_upto(before.slots, s as int),
            decreases self.slots@.len() - s,
        {
            let ghost slots_before = self.slots@;
            let leaving = match &self.slots[s] {
                Some(entry) => entry.life == Life::Leaving,
                None => false,
            };
            if leaving {
                let taken = self.slots[s].take();
                let mut entry = taken.unwrap();
                entry.object.unmount();
                ctx.record(RenderCommand::Unmount { object: entry.id });
                self.index.remove(&entry.id);
            }
            proof {
                assert(slots_before[s as int] == before.slots[s as int]);
                assert(self.slots@ =~= unmounted_upto(before.slots, s + 1));
                assert(ctx.commands@ =~= recorded + unmount_commands_upto(before.slots, s + 1));
                lemma_removed_upto_step(before, s as int);
                assert(self.index@ =~= before.index.remove_keys(removed_upto(before, s + 1)));
            }
            s = s + 1;
        }
        proof {
            assert(removed_upto(before, before.slots.len() as int) =~= before.removed_ids());
            lemma_unmount_keeps_wf(before);
        }
    }

    /// Resolves what `add` and `remove` took note of since the last frame:
    /// first the mounts, then the unmounts. This is the only place where
    /// objects are mounted, unmounted and let go.
    pub fn resolve(&mut self, ctx: &mut RenderContext)
        requires
            old(self).wf(),
        ensures
            final(self).wf(),
            final(self)@ == old(self)@.after_resolve(),
            final(ctx).layout == old(ctx).layout,
            final(ctx).camera == old(ctx).camera,
            final(ctx).commands@ == old(ctx).commands@ + old(self)@.resolve_commands(),
    {
        self.mount_added(ctx);
        self.unmount_removed(ctx);
        assert(ctx.commands@ =~= old(ctx).commands@ + old(self)@.resolve_commands());
    }

    /// Writes the camera record once for each built-in pipeline family.
    fn update_camera(&self, ctx: &mut RenderContext)
        requires
            self.wf(),
            self@.layout is Some,
        ensures
            final(ctx).layout == old(ctx).layout,
            final(ctx).camera == old(ctx).camera,
            final(ctx).commands@ == old(ctx).commands@ + camera_commands(old(ctx).camera),
    {
        let camera = ctx.camera;
        match (&self.uniforms, &self.debug_uniforms) {
            (Some(uniforms), Some(debug_uniforms)) => {
                uniforms.set_camera(ctx, camera);
                debug_uniforms.set_camera(ctx, camera);
            },
            _ => {},
        }
        assert(ctx.commands@ =~= old(ctx).commands@ + camera_commands(old(ctx).camera));
    }

    /// Draws the objects, slot by slot. Nothing is allocated or freed here.
    fn draw_objects(&self, ctx: &mut RenderContext)
        requires
            self.wf(),
            self@.layout is Some,
        ensures
            final(ctx).layout == old(ctx).layout,
            final(ctx).camera == old(ctx).camera,
            final(ctx).commands@ == old(ctx).commands@ + self@.draw_commands(),
    {
        let ghost recorded = ctx.commands@;
        let ghost layout = self@.layout->Some_0;
        let mut s: usize = 0;
        while s < self.slots.len()
            invariant
                s <= self.slots@.len(),
                self.wf(),
                self@.layout == Some(layout),
                ctx.layout == old(ctx).layout,
                ctx.camera == old(ctx).camera,
                ctx.commands@ == recorded + draw_commands_upto(
                    self.slots@,
                    layout,
                    self@.bound_textures,
                    s as int,
                ),
            decreases self.slots@.len() - s,
        {
            match (&self.slots[s], &self.uniforms, &self.debug_uniforms) {
                (Some(entry), Some(uniforms), Some(debug_uniforms)) => {
                    draw_entry(entry, s, uniforms, debug_uniforms, ctx);
                },
                _ => {},
            }
            proof {
                assert(ctx.commands@ =~= recorded + draw_commands_upto(
                    self.slots@,
                    layout,
                    self@.bound_textures,
                    s + 1,
                ));
            }
            s = s + 1;
        }
    }

    /// Draws one frame: writes to the context's list, in order, what the
    /// frame asks of the GPU. With the first frame the uniform buffers are
    /// built, with the layout that the context brings; the scene keeps that
    /// layout from then on. Then the queued textures are made ready, pending
    /// objects are mounted and changed ones brought up to date, removed
    /// objects are unmounted and let go, the camera record is written once,
    /// and every object is drawn from its slot. The buffers of the built-in
    /// families are the scene's to build; those of a program are the
    /// program's, when it is compiled.
    pub fn render(&mut self, ctx: &mut RenderContext)
        requires
            old(self).wf(),
        ensures
            final(self).wf(),
            final(self)@ == old(self)@.after_frame(old(ctx).layout),
            final(ctx).layout == old(ctx).layout,
            final(ctx).camera == old(ctx).camera,
            final(ctx).commands@ == old(ctx).commands@ + old(self)@.frame_commands(
                old(ctx).layout,
                old(ctx).camera,
            ),
    {
        self.build_uniforms(ctx);
        self.process_texture_queue(ctx);
        self.resolve(ctx);
        self.update_camera(ctx);
        self.draw_objects(ctx);
        assert(ctx.commands@ =~= old(ctx).commands@ + old(self)@.frame_commands(
            old(ctx).layout,
            old(ctx).camera,
        ));
    }
}

/// Draws the object of one entry from its slot: its record is written and
/// bound, its texture is bound where the material has one that is ready, and
/// its draw hook says how much is drawn.
fn draw_entry(
    entry: &Entry,
    slot: usize,
    uniforms: &SceneUniforms,
    debug_uniforms: &DebugUniforms,
    ctx: &mut RenderContext,
)
    requires
        slot < MAX_OBJECTS,
        debug_uniforms.spec_layout() == uniforms.spec_layout(),
    ensures
        final(ctx).layout == old(ctx).layout,
        final(ctx).camera == old(ctx).camera,
        final(ctx).commands@ == old(ctx).commands@ + entry.draw_commands(
            uniforms.spec_layout(),
            uniforms.spec_bound(),
            slot as int,
        ),
{
    let index = slot as u64;
    let model = entry.object.transform();
    match entry.object.material() {
        MaterialKind::Basic(material) => {
            uniforms.set_actor(ctx, index, ActorUniform { color: material.color, model });
            uniforms.bind_actor(ctx, index);
            uniforms.bind_texture(ctx, DEFAULT_TEXTURE);
        },
        MaterialKind::Textured(material) => {
            uniforms.set_actor(ctx, index, ActorUniform { color: opaque_black(), model });
            uniforms.bind_actor(ctx, index);
            uniforms.bind_texture(ctx, material.texture_id);
        },
        MaterialKind::Line(_) => {
            debug_uniforms.set_actor(ctx, index, ActorUniform { color: debug_magenta(), model });
            debug_uniforms.bind_actor(ctx, index);
        },
        MaterialKind::Custom(material) => {
            let family = PipelineFamily::Custom(material.program_id);
            let layout = uniforms.layout;
            record_actor(ctx, family, layout, index, ActorUniform { color: opaque_black(), model });
            record_bind_actor(ctx, family, layout, index);
        },
    }
    match entry.object.render() {
        Some(vertices) => {
            ctx.record(RenderCommand::Draw { object: entry.id, vertices });
        },
        None => {},
    }
    assert(ctx.commands@ =~= old(ctx).commands@ + entry.draw_commands(
        uniforms.spec_layout(),
        uniforms.spec_bound(),
        slot as int,
    ));
}

} // verus!
