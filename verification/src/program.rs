//! Programs of the application: a shader source and the uniform buffers that
//! go with it.
//!
//! A program has the same buffers as the simple pipeline family, under a
//! family of its own. It is compiled once; before that, whatever is asked of
//! it is passed over.

use vstd::prelude::*;
use std::collections::HashSet;
use crate::layout::{slot_offset, UniformLayout, ACTOR_UNIFORM_SIZE, CAMERA_UNIFORM_SIZE, MAX_OBJECTS};
use crate::material::PipelineFamily;
use crate::pipelines::{ActorUniform, CameraUniform};
use crate::render_context::{RenderCommand, RenderContext, UniformBuffer};
use crate::texture::TextureID;

verus! {

/// The identity of a program of the application.
pub type ProgramID = usize;

/// What can be asked of a program.
pub trait Program {
    /// Builds the pipeline and the uniform buffers.
    fn compile(&mut self, ctx: &mut RenderContext);

    /// Uploads the camera record.
    fn set_camera(&self, ctx: &mut RenderContext, camera: CameraUniform);

    /// Uploads one object's record into the slot of the given index. There
    /// must be such a slot.
    fn set_actor(&self, ctx: &mut RenderContext, index: u64, contents: ActorUniform)
        requires
            index < MAX_OBJECTS,
    ;

    /// Binds the slot of the given index. There must be such a slot.
    fn bind_actor(&self, ctx: &mut RenderContext, index: u64)
        requires
            index < MAX_OBJECTS,
    ;

    /// Whether the texture of the given id can be bound.
    spec fn can_bind(&self, id: TextureID) -> bool;

    /// Binds a texture. It must be one that can be bound.
    fn bind_texture(&self, ctx: &mut RenderContext, id: TextureID)
        requires
            self.can_bind(id),
    ;

    /// Makes the bind group of a texture.
    fn add_texture(&mut self, ctx: &mut RenderContext, id: TextureID);
}

/// The uniform buffers of a compiled program, and the textures that have a
/// bind group to draw with.
struct ProgramState {
    layout: UniformLayout,
    texture_bind_groups: HashSet<TextureID>,
}

/// A program made of one shader source.
pub struct SimpleProgram {
    id: ProgramID,
    state: Option<ProgramState>,
    source: String,
}

/// What compiling a program asks of the GPU: the pipeline, the three buffers,
/// the two flags ("off" in the first slot, "on" in the second) and the bind
/// group.
pub open spec fn compile_commands(id: ProgramID, layout: UniformLayout) -> Seq<RenderCommand> {
    let family = PipelineFamily::Custom(id);
    seq![
        RenderCommand::CreatePipeline { family },
        RenderCommand::CreateBuffer {
            family,
            buffer: UniformBuffer::Camera,
            size: layout.spec_camera_buffer_size(),
        },
        RenderCommand::CreateBuffer {
            family,
            buffer: UniformBuffer::Actor,
            size: layout.spec_actor_buffer_size(),
        },
        RenderCommand::CreateBuffer {
            family,
            buffer: UniformBuffer::TextureEnabled,
            size: layout.spec_enabled_buffer_size(),
        },
        RenderCommand::WriteFlag { family, offset: 0, value: 0 },
        RenderCommand::WriteFlag { family, offset: layout.spec_alignment() as u64, value: 1 },
        RenderCommand::CreateBindGroup {
            family,
            camera_size: CAMERA_UNIFORM_SIZE,
            actor_size: ACTOR_UNIFORM_SIZE,
        },
    ]
}

impl SimpleProgram {
    /// The id under which the program's pipeline family goes.
    pub closed spec fn spec_id(&self) -> ProgramID {
        self.id
    }

    /// The text of the shader.
    pub closed spec fn spec_source(&self) -> Seq<char> {
        self.source@
    }

    /// The layout of the uniform buffers, once the program is compiled.
    pub closed spec fn spec_layout(&self) -> Option<UniformLayout> {
        match self.state {
            Some(state) => Some(state.layout),
            None => None,
        }
    }

    /// The textures that have a bind group to draw with.
    pub closed spec fn spec_bound(&self) -> Set<TextureID> {
        match self.state {
            Some(state) => state.texture_bind_groups@,
            None => Set::empty(),
        }
    }

    /// The pipeline family of the program.
    pub open spec fn spec_family(&self) -> PipelineFamily {
        PipelineFamily::Custom(self.spec_id())
    }

    /// What is written down where the program is compiled, and nothing where
    /// it is not.
    pub open spec fn when_compiled(&self, commands: Seq<RenderCommand>) -> Seq<RenderCommand> {
        if self.spec_layout() is Some {
            commands
        } else {
            Seq::empty()
        }
    }

    /// A program without a source, not compiled.
    pub fn new(id: ProgramID) -> (program: Self)
        ensures
            program.spec_id() == id,
            program.spec_source() == Seq::<char>::empty(),
            program.spec_layout() is None,
            program.spec_bound() == Set::<TextureID>::empty(),
    {
        SimpleProgram { id, state: None, source: String::new() }
    }

    /// The program with the given shader source.
    pub fn shader(self, source: &str) -> (program: Self)
        ensures
            program.spec_id() == self.spec_id(),
            program.spec_source() == source@,
            program.spec_layout() == self.spec_layout(),
            program.spec_bound() == self.spec_bound(),
    {
        SimpleProgram { id: self.id, state: self.state, source: source.to_owned() }
    }

    /// The text of the shader.
    pub fn source(&self) -> (source: &str)
        ensures
            source@ == self.spec_source(),
    {
        self.source.as_str()
    }

    /// Whether the texture of the given id has a bind group to draw with.
    pub fn has_texture(&self, id: TextureID) -> (b: bool)
        ensures
            b == self.spec_bound().contains(id),
    {
        match &self.state {
            Some(state) => state.texture_bind_groups.contains(&id),
            None => false,
        }
    }

    /// Whether the program is compiled.
    pub fn is_compiled(&self) -> (b: bool)
        ensures
            b == (self.spec_layout() is Some),
    {
        self.state.is_some()
    }
}

impl Program for SimpleProgram {
    /// Builds the pipeline and the uniform buffers with the layout of the
    /// context. A program that is compiled again starts over: its buffers
    /// are new, and no texture has a bind group.
    fn compile(&mut self, ctx: &mut RenderContext)
        ensures
            final(self).spec_id() == old(self).spec_id(),
            final(self).spec_source() == old(self).spec_source(),
            final(self).spec_layout() == Some(old(ctx).layout),
            final(self).spec_bound() == Set::<TextureID>::empty(),
            final(ctx).layout == old(ctx).layout,
            final(ctx).camera == old(ctx).camera,
            final(ctx).commands@ == old(ctx).commands@ + compile_commands(
                old(self).spec_id(),
                old(ctx).layout,
            ),
    {
        let layout = ctx.layout;
        let family = PipelineFamily::Custom(self.id);
        let alignment = layout.alignment();
        ctx.record(RenderCommand::CreatePipeline { family });
        ctx.record(
            RenderCommand::CreateBuffer {
                family,
                buffer: UniformBuffer::Camera,
                size: layout.camera_buffer_size(),
            },
        );
        ctx.record(
            RenderCommand::CreateBuffer {
                family,
                buffer: UniformBuffer::Actor,
                size: layout.actor_buffer_size(),
            },
        );
        ctx.record(
            RenderCommand::CreateBuffer {
                family,
                buffer: UniformBuffer::TextureEnabled,
                size: layout.enabled_buffer_size(),
            },
        );
        ctx.record(RenderCommand::WriteFlag { family, offset: 0, value: 0 });
        ctx.record(RenderCommand::WriteFlag { family, offset: alignment as u64, value: 1 });
        ctx.record(
            RenderCommand::CreateBindGroup {
                family,
                camera_size: CAMERA_UNIFORM_SIZE,
                actor_size: ACTOR_UNIFORM_SIZE,
            },
        );
        assert(ctx.commands@ =~= old(ctx).commands@ + compile_commands(
            old(self).spec_id(),
            old(ctx).layout,
        ));
        self.state = Some(ProgramState { layout, texture_bind_groups: HashSet::new() });
    }

    /// Writes down the upload of the camera record, where the program is compiled.
    fn set_camera(&self, ctx: &mut RenderContext, camera: CameraUniform)
        ensures
            final(ctx).layout == old(ctx).layout,
            final(ctx).camera == old(ctx).camera,
            final(ctx).commands@ == old(ctx).commands@ + self.when_compiled(
                seq![RenderCommand::WriteCamera { family: self.spec_family(), camera }],
            ),
    {
        let family = PipelineFamily::Custom(self.id);
        match &self.state {
            Some(_) => {
                ctx.record(RenderCommand::WriteCamera { family, camera });
            },
            None => {},
        }
        assert(ctx.commands@ =~= old(ctx).commands@ + self.when_compiled(
            seq![RenderCommand::WriteCamera { family: self.spec_family(), camera }],
        ));
    }

    /// Writes down the upload of one object's record into the slot of the
    /// given index, where the program is compiled.
    fn set_actor(&self, ctx: &mut RenderContext, index: u64, contents: ActorUniform)
        ensures
            final(ctx).layout == old(ctx).layout,
            final(ctx).camera == old(ctx).camera,
            final(ctx).commands@ == old(ctx).commands@ + self.when_compiled(
                seq![
                    RenderCommand::WriteActor {
                        family: self.spec_family(),
                        offset: slot_offset(self.spec_layout()->Some_0.spec_alignment(), index)
                            as u64,
                        actor: contents,
                    },
                ],
            ),
    {
        let family = PipelineFamily::Custom(self.id);
        match &self.state {
            Some(state) => {
                let offset = state.layout.actor_offset(index).unwrap();
                ctx.record(
                    RenderCommand::WriteActor { family, offset: offset as u64, actor: contents },
                );
            },
            None => {},
        }
        assert(ctx.commands@ =~= old(ctx).commands@ + self.when_compiled(
            seq![
                RenderCommand::WriteActor {
                    family: self.spec_family(),
                    offset: slot_offset(self.spec_layout()->Some_0.spec_alignment(), index) as u64,
                    actor: contents,
                },
            ],
        ));
    }

    /// Writes down the binding of the slot of the given index, where the
    /// program is compiled.
    fn bind_actor(&self, ctx: &mut RenderContext, index: u64)
        ensures
            final(ctx).layout == old(ctx).layout,
            final(ctx).camera == old(ctx).camera,
            final(ctx).commands@ == old(ctx).commands@ + self.when_compiled(
                seq![
                    RenderCommand::BindActor {
                        family: self.spec_family(),
                        dynamic_offset: slot_offset(
                            self.spec_layout()->Some_0.spec_alignment(),
                            index,
                        ) as u32,
                    },
                ],
            ),
    {
        let family = PipelineFamily::Custom(self.id);
        match &self.state {
            Some(state) => {
                let offset = state.layout.actor_offset(index).unwrap();
                ctx.record(RenderCommand::BindActor { family, dynamic_offset: offset });
            },
            None => {},
        }
        assert(ctx.commands@ =~= old(ctx).commands@ + self.when_compiled(
            seq![
                RenderCommand::BindActor {
                    family: self.spec_family(),
                    dynamic_offset: slot_offset(self.spec_layout()->Some_0.spec_alignment(), index)
                        as u32,
                },
            ],
        ));
    }

    /// A program that is not compiled passes every binding over; one that is
    /// compiled can bind the textures that have a bind group.
    open spec fn can_bind(&self, id: TextureID) -> bool {
        self.spec_layout() is Some ==> self.spec_bound().contains(id)
    }

    /// Writes down the binding of a texture, where the program is compiled.
    fn bind_texture(&self, ctx: &mut RenderContext, id: TextureID)
        ensures
            final(ctx).layout == old(ctx).layout,
            final(ctx).camera == old(ctx).camera,
            final(ctx).commands@ == old(ctx).commands@ + self.when_compiled(
                seq![
                    RenderCommand::BindTexture {
                        family: self.spec_family(),
                        texture: id,
                        enabled_offset: self.spec_layout()->Some_0.spec_enabled_offset(id),
                    },
                ],
            ),
    {
        let family = PipelineFamily::Custom(self.id);
        match &self.state {
            Some(state) => {
                let enabled_offset = state.layout.enabled_offset(id);
                ctx.record(RenderCommand::BindTexture { family, texture: id, enabled_offset });
            },
            None => {},
        }
        assert(ctx.commands@ =~= old(ctx).commands@ + self.when_compiled(
            seq![
                RenderCommand::BindTexture {
                    family: self.spec_family(),
                    texture: id,
                    enabled_offset: self.spec_layout()->Some_0.spec_enabled_offset(id),
                },
            ],
        ));
    }

    /// Writes down the making of the bind group of a texture, and takes note
    /// that the texture has one, where the program is compiled.
    fn add_texture(&mut self, ctx: &mut RenderContext, id: TextureID)
        ensures
            final(self).spec_id() == old(self).spec_id(),
            final(self).spec_source() == old(self).spec_source(),
            final(self).spec_layout() == old(self).spec_layout(),
            final(self).spec_bound() == (if old(self).spec_layout() is Some {
                old(self).spec_bound().insert(id)
            } else {
                old(self).spec_bound()
            }),
            final(ctx).layout == old(ctx).layout,
            final(ctx).camera == old(ctx).camera,
            final(ctx).commands@ == old(ctx).commands@ + old(self).when_compiled(
                seq![
                    RenderCommand::CreateTextureBindGroup {
                        family: old(self).spec_family(),
                        texture: id,
                    },
                ],
            ),
    {
        let family = PipelineFamily::Custom(self.id);
        match &mut self.state {
            Some(state) => {
                ctx.record(RenderCommand::CreateTextureBindGroup { family, texture: id });
                state.texture_bind_groups.insert(id);
            },
            None => {},
        }
        assert(ctx.commands@ =~= old(ctx).commands@ + old(self).when_compiled(
            seq![
                RenderCommand::CreateTextureBindGroup {
                    family: old(self).spec_family(),
                    texture: id,
                },
            ],
        ));
    }
}

} // verus!
