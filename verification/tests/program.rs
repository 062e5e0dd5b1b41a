use byd::layout::UniformLayout;
use byd::material::PipelineFamily;
use byd::math::{Matrix4, Vector4};
use byd::pipelines::{ActorUniform, CameraUniform};
use byd::program::{Program, SimpleProgram};
use byd::render_context::{RenderCommand, RenderContext, UniformBuffer};

fn camera() -> CameraUniform {
    CameraUniform { view: Matrix4::identity(), projection: Matrix4::identity() }
}

fn context() -> RenderContext {
    RenderContext::new(UniformLayout::new(256).unwrap(), camera())
}

fn actor() -> ActorUniform {
    ActorUniform { color: Vector4::new(1, 2, 3, 4), model: Matrix4::identity() }
}

#[test]
fn a_program_that_is_not_compiled_passes_everything_over() {
    let mut ctx = context();
    let mut program = SimpleProgram::new(9).shader("fn vs_main() {}");
    assert_eq!(program.source(), "fn vs_main() {}");
    assert!(!program.is_compiled());
    program.set_camera(&mut ctx, camera());
    program.set_actor(&mut ctx, 3, actor());
    program.bind_actor(&mut ctx, 3);
    program.bind_texture(&mut ctx, 0);
    program.add_texture(&mut ctx, 0);
    assert!(ctx.take_commands().is_empty());
    assert!(!program.has_texture(0));
}

#[test]
fn compiling_builds_the_buffers_with_the_flag_off_then_on() {
    let mut ctx = context();
    let mut program = SimpleProgram::new(9);
    assert_eq!(program.source(), "");
    program.compile(&mut ctx);
    assert!(program.is_compiled());
    let family = PipelineFamily::Custom(9);
    assert_eq!(
        ctx.take_commands(),
        vec![
            RenderCommand::CreatePipeline { family },
            RenderCommand::CreateBuffer { family, buffer: UniformBuffer::Camera, size: 256 },
            RenderCommand::CreateBuffer { family, buffer: UniformBuffer::Actor, size: 524288 },
            RenderCommand::CreateBuffer { family, buffer: UniformBuffer::TextureEnabled, size: 512 },
            RenderCommand::WriteFlag { family, offset: 0, value: 0 },
            RenderCommand::WriteFlag { family, offset: 256, value: 1 },
            RenderCommand::CreateBindGroup { family, camera_size: 128, actor_size: 80 },
        ]
    );
}

#[test]
fn a_compiled_program_writes_and_binds_in_its_own_family() {
    let mut ctx = context();
    let mut program = SimpleProgram::new(2);
    program.compile(&mut ctx);
    ctx.take_commands();
    let family = PipelineFamily::Custom(2);
    program.set_camera(&mut ctx, camera());
    program.set_actor(&mut ctx, 3, actor());
    program.bind_actor(&mut ctx, 3);
    program.add_texture(&mut ctx, 5);
    assert!(program.has_texture(5));
    assert!(!program.has_texture(0));
    program.bind_texture(&mut ctx, 5);
    assert_eq!(
        ctx.take_commands(),
        vec![
            RenderCommand::WriteCamera { family, camera: camera() },
            RenderCommand::WriteActor { family, offset: 768, actor: actor() },
            RenderCommand::BindActor { family, dynamic_offset: 768 },
            RenderCommand::CreateTextureBindGroup { family, texture: 5 },
            RenderCommand::BindTexture { family, texture: 5, enabled_offset: 256 },
        ]
    );
}

#[test]
fn compiling_again_starts_over() {
    let mut ctx = context();
    let mut program = SimpleProgram::new(2);
    program.compile(&mut ctx);
    program.add_texture(&mut ctx, 5);
    assert!(program.has_texture(5));
    program.compile(&mut ctx);
    assert!(!program.has_texture(5));
    assert!(program.is_compiled());
}
