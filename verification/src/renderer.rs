//! The renderer: what one frame asks of the GPU from its first command to
//! the presented image, and what to do when the surface fails.
//!
//! A scene is drawn to an off-screen colour target. The target is then copied
//! to the presentable surface by a pass that draws one full-screen quad, so
//! that an output which is no window can take the same scene pass and replace
//! only the last step.

use vstd::prelude::*;
use crate::math::Scalar;
use crate::render_context::{ClearColor, RenderCommand, RenderContext};
use crate::scene::Scene;

verus! {

/// The number of vertices of the full-screen quad: two triangles.
pub const QUAD_VERTEX_COUNT: u32 = 6;

/// The bits of the double-precision `1.0`.
pub const F64_ONE: u64 = 0x3FF0_0000_0000_0000;

/// The bits of the double-precision `0.05`.
pub const F64_ONE_TWENTIETH: u64 = 0x3FA9_9999_9999_999A;

/// The bits of the double-precision `0.1`.
pub const F64_ONE_TENTH: u64 = 0x3FB9_9999_9999_999A;

/// The bits of the double-precision `0.3`.
pub const F64_THREE_TENTHS: u64 = 0x3FD3_3333_3333_3333;

/// The depth that the depth target is cleared to: the bits of `1.0`.
pub const FAR_DEPTH: Scalar = 0x3F80_0000;

/// The near-black that the colour target is cleared to.
pub open spec fn spec_scene_clear() -> ClearColor {
    ClearColor { r: F64_ONE_TWENTIETH, g: F64_ONE_TWENTIETH, b: F64_ONE_TWENTIETH, a: F64_ONE }
}

#[verifier::when_used_as_spec(spec_scene_clear)]
pub fn scene_clear() -> (c: ClearColor)
    ensures
        c == spec_scene_clear(),
{
    ClearColor { r: F64_ONE_TWENTIETH, g: F64_ONE_TWENTIETH, b: F64_ONE_TWENTIETH, a: F64_ONE }
}

/// The dark blue that the surface is cleared to.
pub open spec fn spec_surface_clear() -> ClearColor {
    ClearColor { r: F64_ONE_TENTH, g: F64_ONE_TENTH, b: F64_THREE_TENTHS, a: F64_ONE }
}

#[verifier::when_used_as_spec(spec_surface_clear)]
pub fn surface_clear() -> (c: ClearColor)
    ensures
        c == spec_surface_clear(),
{
    ClearColor { r: F64_ONE_TENTH, g: F64_ONE_TENTH, b: F64_THREE_TENTHS, a: F64_ONE }
}

/// How taking the next texture of the surface can fail.
#[derive(Clone, Copy, Debug, PartialEq, Eq, Structural)]
pub enum SurfaceError {
    /// The texture did not come in time.
    Timeout,
    /// The surface has changed and must be configured again.
    Outdated,
    /// The surface was lost and must be configured again.
    Lost,
    /// There is no memory left.
    OutOfMemory,
}

/// What to do about a frame whose surface failed.
#[derive(Clone, Copy, Debug, PartialEq, Eq, Structural)]
pub enum Recovery {
    /// The surface was configured again: try once more.
    Retry,
    /// Give this frame up and go on with the next.
    SkipFrame,
    /// Give up altogether.
    Fatal,
}

/// The targets that scenes are drawn to, and the surface, if there is one.
pub struct Renderer {
    width: u32,
    height: u32,
    attached: bool,
}

/// What creating the targets of a size asks of the GPU when the size changes.
pub open spec fn resize_commands(attached: bool, width: u32, height: u32) -> Seq<RenderCommand> {
    (if attached {
        seq![RenderCommand::ConfigureSurface { width, height }]
    } else {
        Seq::empty()
    }) + seq![
        RenderCommand::CreateScreenTexture { width, height },
        RenderCommand::BindScreenTexture,
        RenderCommand::CreateDepthTexture { width, height },
    ]
}

/// What copying the colour target to the surface asks of the GPU, if there
/// is a surface.
pub open spec fn composite_commands(attached: bool) -> Seq<RenderCommand> {
    if attached {
        seq![
            RenderCommand::BeginSurfacePass { clear: spec_surface_clear() },
            RenderCommand::DrawQuad { vertices: QUAD_VERTEX_COUNT },
            RenderCommand::Submit,
            RenderCommand::Present,
        ]
    } else {
        Seq::empty()
    }
}

impl Renderer {
    pub closed spec fn spec_width(&self) -> u32 {
        self.width
    }

    pub closed spec fn spec_height(&self) -> u32 {
        self.height
    }

    /// Whether there is a surface to present to.
    pub closed spec fn spec_attached(&self) -> bool {
        self.attached
    }

    /// A renderer for targets of the given size, without a surface: writes
    /// down the creation of the depth target, the colour target, and the quad
    /// that reads the colour target.
    pub fn new(width: u32, height: u32, ctx: &mut RenderContext) -> (renderer: Renderer)
        ensures
            renderer.spec_width() == width,
            renderer.spec_height() == height,
            !renderer.spec_attached(),
            final(ctx).layout == old(ctx).layout,
            final(ctx).camera == old(ctx).camera,
            final(ctx).commands@ == old(ctx).commands@ + seq![
                RenderCommand::CreateDepthTexture { width, height },
                RenderCommand::CreateScreenTexture { width, height },
                RenderCommand::CreateQuad { vertices: QUAD_VERTEX_COUNT },
                RenderCommand::BindScreenTexture,
            ],
    {
        ctx.record(RenderCommand::CreateDepthTexture { width, height });
        ctx.record(RenderCommand::CreateScreenTexture { width, height });
        ctx.record(RenderCommand::CreateQuad { vertices: QUAD_VERTEX_COUNT });
        ctx.record(RenderCommand::BindScreenTexture);
        assert(ctx.commands@ =~= old(ctx).commands@ + seq![
            RenderCommand::CreateDepthTexture { width, height },
            RenderCommand::CreateScreenTexture { width, height },
            RenderCommand::CreateQuad { vertices: QUAD_VERTEX_COUNT },
            RenderCommand::BindScreenTexture,
        ]);
        Renderer { width, height, attached: false }
    }

    #[verifier::when_used_as_spec(spec_width)]
    pub fn width(&self) -> (w: u32)
        ensures
            w == self.spec_width(),
    {
        self.width
    }

    #[verifier::when_used_as_spec(spec_height)]
    pub fn height(&self) -> (h: u32)
        ensures
            h == self.spec_height(),
    {
        self.height
    }

    /// Whether there is a surface to present to.
    #[verifier::when_used_as_spec(spec_attached)]
    pub fn is_attached(&self) -> (b: bool)
        ensures
            b == self.spec_attached(),
    {
        self.attached
    }

    /// Takes note that there is a surface now, and has it configured and the
    /// targets created for the current size.
    pub fn attach(&mut self, ctx: &mut RenderContext)
        ensures
            final(self).spec_width() == old(self).spec_width(),
            final(self).spec_height() == old(self).spec_height(),
            final(self).spec_attached(),
            final(ctx).layout == old(ctx).layout,
            final(ctx).camera == old(ctx).camera,
            final(ctx).commands@ == old(ctx).commands@ + resize_commands(
                true,
                old(self).spec_width(),
                old(self).spec_height(),
            ),
    {
        self.attached = true;
        let width = self.width;
        let height = self.height;
        self.resize(width, height, ctx);
    }

    /// Changes the size: the surface, if there is one, is configured again,
    /// and the colour target, the quad's view of it and the depth target are
    /// created anew.
    pub fn resize(&mut self, width: u32, height: u32, ctx: &mut RenderContext)
        ensures
            final(self).spec_width() == width,
            final(self).spec_height() == height,
            final(self).spec_attached() == old(self).spec_attached(),
            final(ctx).layout == old(ctx).layout,
            final(ctx).camera == old(ctx).camera,
            final(ctx).commands@ == old(ctx).commands@ + resize_commands(
                old(self).spec_attached(),
                width,
                height,
            ),
    {
        self.width = width;
        self.height = height;
        if self.attached {
            ctx.record(RenderCommand::ConfigureSurface { width, height });
        }
        ctx.record(RenderCommand::CreateScreenTexture { width, height });
        ctx.record(RenderCommand::BindScreenTexture);
        ctx.record(RenderCommand::CreateDepthTexture { width, height });
        assert(ctx.commands@ =~= old(ctx).commands@ + resize_commands(
            old(self).spec_attached(),
            width,
            height,
        ));
    }

    /// Draws the scene to the colour target and copies the target to the
    /// surface, if there is one.
    pub fn render(&mut self, scene: &mut Scene, ctx: &mut RenderContext)
        requires
            old(scene).wf(),
        ensures
            *final(self) == *old(self),
            final(scene).wf(),
            final(scene)@ == old(scene)@.after_textures().after_frame(old(ctx).layout),
            final(ctx).layout == old(ctx).layout,
            final(ctx).camera == old(ctx).camera,
            final(ctx).commands@ == old(ctx).commands@ + scene_pass_commands(
                old(scene)@,
                old(ctx).layout,
                old(ctx).camera,
            ) + composite_commands(old(self).spec_attached()),
    {
        self.render_to_buffer(scene, ctx);
        self.render_to_surface(ctx);
    }

    /// Draws the scene to the colour target: begins the pass, lets the scene
    /// work off its texture queue and draw its frame, and submits.
    pub fn render_to_buffer(&mut self, scene: &mut Scene, ctx: &mut RenderContext)
        requires
            old(scene).wf(),
        ensures
            *final(self) == *old(self),
            final(scene).wf(),
            final(scene)@ == old(scene)@.after_textures().after_frame(old(ctx).layout),
            final(ctx).layout == old(ctx).layout,
            final(ctx).camera == old(ctx).camera,
            final(ctx).commands@ == old(ctx).commands@ + scene_pass_commands(
                old(scene)@,
                old(ctx).layout,
                old(ctx).camera,
            ),
    {
        ctx.record(RenderCommand::BeginScenePass { clear: scene_clear(), depth: FAR_DEPTH });
        scene.process_texture_queue(ctx);
        scene.render(ctx);
        ctx.record(RenderCommand::Submit);
        assert(ctx.commands@ =~= old(ctx).commands@ + scene_pass_commands(
            old(scene)@,
            old(ctx).layout,
            old(ctx).camera,
        ));
    }

    /// Copies the colour target to the surface and presents it, if there is a
    /// surface: one pass that draws the full-screen quad.
    pub fn render_to_surface(&mut self, ctx: &mut RenderContext)
        ensures
            *final(self) == *old(self),
            final(ctx).layout == old(ctx).layout,
            final(ctx).camera == old(ctx).camera,
            final(ctx).commands@ == old(ctx).commands@ + composite_commands(
                old(self).spec_attached(),
            ),
    {
        if self.attached {
            ctx.record(RenderCommand::BeginSurfacePass { clear: surface_clear() });
            ctx.record(RenderCommand::DrawQuad { vertices: QUAD_VERTEX_COUNT });
            ctx.record(RenderCommand::Submit);
            ctx.record(RenderCommand::Present);
        }
        assert(ctx.commands@ =~= old(ctx).commands@ + composite_commands(
            old(self).spec_attached(),
        ));
    }

    /// What is to be done when the surface did not hand out its next texture.
    pub open spec fn spec_recovery(error: SurfaceError) -> Recovery {
        match error {
            SurfaceError::Lost => Recovery::Retry,
            SurfaceError::Outdated => Recovery::Retry,
            SurfaceError::OutOfMemory => Recovery::Fatal,
            SurfaceError::Timeout => Recovery::SkipFrame,
        }
    }

    /// Decides what to do when the surface did not hand out its next texture.
    /// A surface that was lost or is outdated is configured again for the
    /// current size, with its targets, and the frame is tried once more. Out
    /// of memory is fatal. Anything else costs this frame and no more.
    pub fn recover(&mut self, error: SurfaceError, ctx: &mut RenderContext) -> (recovery: Recovery)
        ensures
            *final(self) == *old(self),
            recovery == Self::spec_recovery(error),
            final(ctx).layout == old(ctx).layout,
            final(ctx).camera == old(ctx).camera,
            final(ctx).commands@ == old(ctx).commands@ + (if recovery == Recovery::Retry {
                resize_commands(
                    old(self).spec_attached(),
                    old(self).spec_width(),
                    old(self).spec_height(),
                )
            } else {
                Seq::<RenderCommand>::empty()
            }),
    {
        match error {
            SurfaceError::Lost | SurfaceError::Outdated => {
                let width = self.width;
                let height = self.height;
                self.resize(width, height, ctx);
                Recovery::Retry
            },
            SurfaceError::OutOfMemory => {
                assert(ctx.commands@ =~= old(ctx).commands@ + Seq::<RenderCommand>::empty());
                Recovery::Fatal
            },
            SurfaceError::Timeout => {
                assert(ctx.commands@ =~= old(ctx).commands@ + Seq::<RenderCommand>::empty());
                Recovery::SkipFrame
            },
        }
    }
}

/// What drawing a scene to the colour target asks of the GPU: the pass is
/// begun, the scene works off its texture queue and draws its frame, and what
/// was encoded is submitted.
pub open spec fn scene_pass_commands(
    scene: crate::scene_view::SceneView,
    layout: crate::layout::UniformLayout,
    camera: crate::pipelines::CameraUniform,
) -> Seq<RenderCommand> {
    seq![RenderCommand::BeginScenePass { clear: spec_scene_clear(), depth: FAR_DEPTH }]
        + scene.texture_commands() + scene.after_textures().frame_commands(layout, camera)
        + seq![RenderCommand::Submit]
}

} // verus!
