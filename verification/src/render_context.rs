//! What drawing a frame asks of the GPU, as a list of commands.
//!
//! The library never talks to a GPU. It decides what is to be done and writes
//! it down, in order; whoever owns the device carries the commands out.

use vstd::prelude::*;
use crate::layout::UniformLayout;
use crate::material::PipelineFamily;
use crate::math::Scalar;
use crate::pipelines::{ActorUniform, CameraUniform};
use crate::scene::ObjectID;
use crate::texture::TextureID;

verus! {

/// One of the uniform buffers that the objects of a pipeline family share.
#[derive(Clone, Copy, Debug, PartialEq, Eq, Structural)]
pub enum UniformBuffer {
    /// The camera record: a single slot.
    Camera,
    /// The per-object records: a slot for each object.
    Actor,
    /// The texture-enabled flags: a slot for "off" and a slot for "on".
    TextureEnabled,
}

/// One thing for the GPU to do.
#[derive(Clone, Copy, Debug, PartialEq, Eq, Structural)]
pub enum RenderCommand {
    /// Build the pipeline of a family.
    CreatePipeline { family: PipelineFamily },
    /// Create one of a family's uniform buffers, of the given size in bytes.
    CreateBuffer { family: PipelineFamily, buffer: UniformBuffer, size: u64 },
    /// Create a family's bind group over its camera and per-object buffers,
    /// each bound from offset zero with the given size.
    CreateBindGroup { family: PipelineFamily, camera_size: u64, actor_size: u64 },
    /// Write a texture-enabled flag at the given offset of a family's flag buffer.
    WriteFlag { family: PipelineFamily, offset: u64, value: u32 },
    /// Write the camera record at the start of a family's camera buffer.
    WriteCamera { family: PipelineFamily, camera: CameraUniform },
    /// Write one object's record at the given offset of a family's
    /// per-object buffer.
    WriteActor { family: PipelineFamily, offset: u64, actor: ActorUniform },
    /// Create the GPU texture, view and sampler of a texture.
    AllocateTexture { texture: TextureID, width: u32, height: u32 },
    /// Copy the pixels of a texture to its GPU texture.
    UploadTexture { texture: TextureID },
    /// Create the bind group that draws with a texture.
    CreateTextureBindGroup { family: PipelineFamily, texture: TextureID },
    /// An object's mount hook ran: create its vertex buffer from its vertices.
    Mount { object: ObjectID },
    /// An object's unmount hook ran: destroy its vertex buffer.
    Unmount { object: ObjectID },
    /// An object's vertices changed: destroy its vertex buffer and create it
    /// again from the current vertices.
    Refresh { object: ObjectID },
    /// Set a family's pipeline and bind its first bind group, with the
    /// per-object buffer at the given dynamic offset.
    BindActor { family: PipelineFamily, dynamic_offset: u32 },
    /// Bind the bind group of a texture as the second, with the flag buffer at
    /// the given dynamic offset.
    BindTexture { family: PipelineFamily, texture: TextureID, enabled_offset: u32 },
    /// Draw the given number of vertices from an object's vertex buffer.
    Draw { object: ObjectID, vertices: u32 },
    /// Configure the presentable surface for the given size.
    ConfigureSurface { width: u32, height: u32 },
    /// Create the off-screen colour target that scenes are drawn to.
    CreateScreenTexture { width: u32, height: u32 },
    /// Create the depth target that goes with the colour target.
    CreateDepthTexture { width: u32, height: u32 },
    /// Create the vertex buffer of the full-screen quad.
    CreateQuad { vertices: u32 },
    /// Make the bind group that lets the quad read the colour target.
    BindScreenTexture,
    /// Begin the pass that draws a scene to the colour target, cleared to the
    /// given colour and depth.
    BeginScenePass { clear: ClearColor, depth: Scalar },
    /// Take the next texture of the presentable surface, and begin the pass
    /// that draws to it, cleared to the given colour.
    BeginSurfacePass { clear: ClearColor },
    /// Draw the full-screen quad, which copies the colour target.
    DrawQuad { vertices: u32 },
    /// End the pass and submit what was encoded.
    Submit,
    /// Present the texture of the surface.
    Present,
}

/// A colour to clear a target with: four double-precision numbers, held as
/// their bits.
#[derive(Clone, Copy, Debug, PartialEq, Eq, Structural)]
pub struct ClearColor {
    pub r: u64,
    pub g: u64,
    pub b: u64,
    pub a: u64,
}

/// The stages that a frame goes through, in their order.
#[derive(Clone, Copy, Debug, PartialEq, Eq, Structural)]
pub enum FramePhase {
    /// Targets, pipelines and uniform buffers are created: with the first
    /// frame, and when the size changes.
    BuildingPipeline,
    /// Queued textures are made ready; pending objects are mounted, changed
    /// ones brought up to date, removed ones unmounted. Nothing else
    /// allocates or frees on behalf of an object.
    ResolvePending,
    /// The camera record is written, once.
    UpdateCamera,
    /// The objects are drawn, each from its slot.
    DrawObjects,
    /// The colour target is copied to the presentable surface.
    Composite,
    /// The surface is presented.
    Present,
}

impl FramePhase {
    /// The place of the phase in a frame.
    pub open spec fn rank(self) -> int {
        match self {
            FramePhase::BuildingPipeline => 0,
            FramePhase::ResolvePending => 1,
            FramePhase::UpdateCamera => 2,
            FramePhase::DrawObjects => 3,
            FramePhase::Composite => 4,
            FramePhase::Present => 5,
        }
    }
}

impl RenderCommand {
    /// The phase of a frame that a command belongs to.
    pub open spec fn spec_phase(self) -> FramePhase {
        match self {
            RenderCommand::CreatePipeline { .. } => FramePhase::BuildingPipeline,
            RenderCommand::CreateBuffer { .. } => FramePhase::BuildingPipeline,
            RenderCommand::CreateBindGroup { .. } => FramePhase::BuildingPipeline,
            RenderCommand::WriteFlag { .. } => FramePhase::BuildingPipeline,
            RenderCommand::ConfigureSurface { .. } => FramePhase::BuildingPipeline,
            RenderCommand::CreateScreenTexture { .. } => FramePhase::BuildingPipeline,
            RenderCommand::CreateDepthTexture { .. } => FramePhase::BuildingPipeline,
            RenderCommand::CreateQuad { .. } => FramePhase::BuildingPipeline,
            RenderCommand::BindScreenTexture => FramePhase::BuildingPipeline,
            RenderCommand::BeginScenePass { .. } => FramePhase::BuildingPipeline,
            RenderCommand::AllocateTexture { .. } => FramePhase::ResolvePending,
            RenderCommand::UploadTexture { .. } => FramePhase::ResolvePending,
            RenderCommand::CreateTextureBindGroup { .. } => FramePhase::ResolvePending,
            RenderCommand::Mount { .. } => FramePhase::ResolvePending,
            RenderCommand::Unmount { .. } => FramePhase::ResolvePending,
            RenderCommand::Refresh { .. } => FramePhase::ResolvePending,
            RenderCommand::WriteCamera { .. } => FramePhase::UpdateCamera,
            RenderCommand::WriteActor { .. } => FramePhase::DrawObjects,
            RenderCommand::BindActor { .. } => FramePhase::DrawObjects,
            RenderCommand::BindTexture { .. } => FramePhase::DrawObjects,
            RenderCommand::Draw { .. } => FramePhase::DrawObjects,
            RenderCommand::Submit => FramePhase::Composite,
            RenderCommand::BeginSurfacePass { .. } => FramePhase::Composite,
            RenderCommand::DrawQuad { .. } => FramePhase::Composite,
            RenderCommand::Present => FramePhase::Present,
        }
    }

    /// The phase of a frame that a command belongs to.
    #[verifier::when_used_as_spec(spec_phase)]
    pub fn phase(self) -> (phase: FramePhase)
        ensures
            phase == self.spec_phase(),
    {
        match self {
            RenderCommand::CreatePipeline { .. } => FramePhase::BuildingPipeline,
            RenderCommand::CreateBuffer { .. } => FramePhase::BuildingPipeline,
            RenderCommand::CreateBindGroup { .. } => FramePhase::BuildingPipeline,
            RenderCommand::WriteFlag { .. } => FramePhase::BuildingPipeline,
            RenderCommand::ConfigureSurface { .. } => FramePhase::BuildingPipeline,
            RenderCommand::CreateScreenTexture { .. } => FramePhase::BuildingPipeline,
            RenderCommand::CreateDepthTexture { .. } => FramePhase::BuildingPipeline,
            RenderCommand::CreateQuad { .. } => FramePhase::BuildingPipeline,
            RenderCommand::BindScreenTexture => FramePhase::BuildingPipeline,
            RenderCommand::BeginScenePass { .. } => FramePhase::BuildingPipeline,
            RenderCommand::AllocateTexture { .. } => FramePhase::ResolvePending,
            RenderCommand::UploadTexture { .. } => FramePhase::ResolvePending,
            RenderCommand::CreateTextureBindGroup { .. } => FramePhase::ResolvePending,
            RenderCommand::Mount { .. } => FramePhase::ResolvePending,
            RenderCommand::Unmount { .. } => FramePhase::ResolvePending,
            RenderCommand::Refresh { .. } => FramePhase::ResolvePending,
            RenderCommand::WriteCamera { .. } => FramePhase::UpdateCamera,
            RenderCommand::WriteActor { .. } => FramePhase::DrawObjects,
            RenderCommand::BindActor { .. } => FramePhase::DrawObjects,
            RenderCommand::BindTexture { .. } => FramePhase::DrawObjects,
            RenderCommand::Draw { .. } => FramePhase::DrawObjects,
            RenderCommand::Submit => FramePhase::Composite,
            RenderCommand::BeginSurfacePass { .. } => FramePhase::Composite,
            RenderCommand::DrawQuad { .. } => FramePhase::Composite,
            RenderCommand::Present => FramePhase::Present,
        }
    }
}

/// The commands of a list come phase by phase: none belongs to an earlier
/// phase than one before it.
pub open spec fn in_phase_order(commands: Seq<RenderCommand>) -> bool {
    forall|i: int, j: int|
        0 <= i <= j < commands.len() ==> (#[trigger] commands[i]).spec_phase().rank() <= (
        #[trigger] commands[j]).spec_phase().rank()
}

/// Every command of the list belongs to the given phase.
pub open spec fn all_in_phase(commands: Seq<RenderCommand>, phase: FramePhase) -> bool {
    forall|i: int| 0 <= i < commands.len() ==> (#[trigger] commands[i]).spec_phase() == phase
}

/// No command of the list belongs to a phase before `low` or after `high`.
pub open spec fn within_phases(commands: Seq<RenderCommand>, low: int, high: int) -> bool {
    forall|i: int|
        0 <= i < commands.len() ==> low <= (#[trigger] commands[i]).spec_phase().rank() <= high
}

/// A list in phase order followed by one that starts no earlier than the
/// first ends is in phase order.
pub proof fn lemma_phase_order_concat(
    a: Seq<RenderCommand>,
    b: Seq<RenderCommand>,
    low: int,
    mid: int,
    high: int,
)
    requires
        low <= mid <= high,
        in_phase_order(a),
        in_phase_order(b),
        within_phases(a, low, mid),
        within_phases(b, mid, high),
    ensures
        in_phase_order(a + b),
        within_phases(a + b, low, high),
{
    assert forall|i: int, j: int| 0 <= i <= j < (a + b).len() implies (#[trigger] (a + b)[i]).spec_phase().rank()
        <= (#[trigger] (a + b)[j]).spec_phase().rank() by {
        if j < a.len() {
            assert((a + b)[i] == a[i] && (a + b)[j] == a[j]);
        } else if i >= a.len() {
            assert((a + b)[i] == b[i - a.len()] && (a + b)[j] == b[j - a.len()]);
        } else {
            assert((a + b)[i] == a[i] && (a + b)[j] == b[j - a.len()]);
        }
    }
    assert forall|i: int| 0 <= i < (a + b).len() implies low <= (#[trigger] (a + b)[i]).spec_phase().rank()
        <= high by {
        if i < a.len() {
            assert((a + b)[i] == a[i]);
        } else {
            assert((a + b)[i] == b[i - a.len()]);
        }
    }
}

/// A list whose commands all belong to one phase is in phase order.
pub proof fn lemma_one_phase(commands: Seq<RenderCommand>, phase: FramePhase)
    requires
        all_in_phase(commands, phase),
    ensures
        in_phase_order(commands),
        within_phases(commands, phase.rank(), phase.rank()),
{
}

/// What a frame is drawn with: the layout of the uniform buffers, the camera,
/// and the list that the commands are written to.
pub struct RenderContext {
    pub layout: UniformLayout,
    pub camera: CameraUniform,
    pub commands: Vec<RenderCommand>,
}

impl RenderContext {
    /// A context with an empty list of commands.
    pub fn new(layout: UniformLayout, camera: CameraUniform) -> (ctx: Self)
        ensures
            ctx.layout == layout,
            ctx.camera == camera,
            ctx.commands@ == Seq::<RenderCommand>::empty(),
    {
        RenderContext { layout, camera, commands: Vec::new() }
    }

    /// Writes a command at the end of the list.
    pub fn record(&mut self, command: RenderCommand)
        ensures
            final(self).layout == old(self).layout,
            final(self).camera == old(self).camera,
            final(self).commands@ == old(self).commands@.push(command),
    {
        self.commands.push(command);
    }

    /// Hands out the commands written so far and starts an empty list.
    pub fn take_commands(&mut self) -> (commands: Vec<RenderCommand>)
        ensures
            commands@ == old(self).commands@,
            final(self).layout == old(self).layout,
            final(self).camera == old(self).camera,
            final(self).commands@ == Seq::<RenderCommand>::empty(),
    {
        let mut commands: Vec<RenderCommand> = Vec::new();
        std::mem::swap(&mut commands, &mut self.commands);
        commands
    }
}

} // verus!
