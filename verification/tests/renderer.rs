use byd::color::default_color;
use byd::geometry::Geometry;
use byd::layout::UniformLayout;
use byd::material::BasicMaterial;
use byd::math::Matrix4;
use byd::mesh::{Mesh, SimpleVertex};
use byd::pipelines::CameraUniform;
use byd::render_context::{ClearColor, FramePhase, RenderCommand, RenderContext};
use byd::renderer::{scene_clear, surface_clear, Recovery, Renderer, SurfaceError};
use byd::scene::Scene;

fn fresh_context() -> RenderContext {
    RenderContext::new(
        UniformLayout::new(256).unwrap(),
        CameraUniform { view: Matrix4::identity(), projection: Matrix4::identity() },
    )
}

fn rank(phase: FramePhase) -> u8 {
    match phase {
        FramePhase::BuildingPipeline => 0,
        FramePhase::ResolvePending => 1,
        FramePhase::UpdateCamera => 2,
        FramePhase::DrawObjects => 3,
        FramePhase::Composite => 4,
        FramePhase::Present => 5,
    }
}

fn cube() -> Mesh<SimpleVertex> {
    Mesh::new(Geometry::cube(), BasicMaterial::new(default_color()))
}

#[test]
fn a_new_renderer_creates_its_targets_and_has_no_surface() {
    let mut ctx = fresh_context();
    let renderer = Renderer::new(640, 480, &mut ctx);
    assert_eq!((renderer.width(), renderer.height()), (640, 480));
    assert!(!renderer.is_attached());
    assert_eq!(
        ctx.take_commands(),
        vec![
            RenderCommand::CreateDepthTexture { width: 640, height: 480 },
            RenderCommand::CreateScreenTexture { width: 640, height: 480 },
            RenderCommand::CreateQuad { vertices: 6 },
            RenderCommand::BindScreenTexture,
        ]
    );
}

#[test]
fn attaching_configures_the_surface_for_the_current_size() {
    let mut ctx = fresh_context();
    let mut renderer = Renderer::new(640, 480, &mut ctx);
    ctx.take_commands();
    renderer.attach(&mut ctx);
    assert!(renderer.is_attached());
    assert_eq!(
        ctx.take_commands(),
        vec![
            RenderCommand::ConfigureSurface { width: 640, height: 480 },
            RenderCommand::CreateScreenTexture { width: 640, height: 480 },
            RenderCommand::BindScreenTexture,
            RenderCommand::CreateDepthTexture { width: 640, height: 480 },
        ]
    );
}

#[test]
fn resizing_without_a_surface_only_creates_the_targets() {
    let mut ctx = fresh_context();
    let mut renderer = Renderer::new(640, 480, &mut ctx);
    ctx.take_commands();
    renderer.resize(800, 600, &mut ctx);
    assert_eq!((renderer.width(), renderer.height()), (800, 600));
    assert_eq!(
        ctx.take_commands(),
        vec![
            RenderCommand::CreateScreenTexture { width: 800, height: 600 },
            RenderCommand::BindScreenTexture,
            RenderCommand::CreateDepthTexture { width: 800, height: 600 },
        ]
    );
}

#[test]
fn without_a_surface_nothing_is_presented() {
    let mut ctx = fresh_context();
    let mut renderer = Renderer::new(64, 64, &mut ctx);
    ctx.take_commands();
    renderer.render_to_surface(&mut ctx);
    assert!(ctx.take_commands().is_empty());
    let mut scene = Scene::new();
    renderer.render(&mut scene, &mut ctx);
    let commands = ctx.take_commands();
    assert_eq!(
        commands[0],
        RenderCommand::BeginScenePass { clear: scene_clear(), depth: 1.0f32.to_bits() }
    );
    assert_eq!(*commands.last().unwrap(), RenderCommand::Submit);
    assert!(!commands.contains(&RenderCommand::Present));
}

#[test]
fn with_a_surface_the_frame_ends_with_the_quad_and_the_presentation() {
    let mut ctx = fresh_context();
    let mut renderer = Renderer::new(64, 64, &mut ctx);
    renderer.attach(&mut ctx);
    ctx.take_commands();
    let mut scene = Scene::new();
    scene.add(cube()).unwrap();
    renderer.render(&mut scene, &mut ctx);
    let commands = ctx.take_commands();
    let n = commands.len();
    assert_eq!(
        commands[n - 5..].to_vec(),
        vec![
            RenderCommand::Submit,
            RenderCommand::BeginSurfacePass { clear: surface_clear() },
            RenderCommand::DrawQuad { vertices: 6 },
            RenderCommand::Submit,
            RenderCommand::Present,
        ]
    );
    assert_eq!(commands[n - 6], RenderCommand::Draw { object: 1, vertices: 36 });
}

#[test]
fn the_commands_of_a_frame_come_phase_by_phase() {
    let mut ctx = fresh_context();
    let mut renderer = Renderer::new(64, 64, &mut ctx);
    renderer.attach(&mut ctx);
    ctx.take_commands();
    let mut scene = Scene::new();
    for frame in 0..4 {
        let id = scene.add(cube()).unwrap();
        scene.add(cube()).unwrap();
        if frame % 2 == 1 {
            scene.remove(id);
            scene.add_texture(byd::texture::Texture::new(2, 2)).unwrap();
        }
        renderer.render(&mut scene, &mut ctx);
        let commands = ctx.take_commands();
        let ranks: Vec<u8> = commands.iter().map(|c| rank(c.phase())).collect();
        let mut sorted = ranks.clone();
        sorted.sort();
        assert_eq!(ranks, sorted);
        let first_draw =
            commands.iter().position(|c| matches!(c, RenderCommand::Draw { .. })).unwrap();
        for command in &commands[first_draw..] {
            assert!(!matches!(
                command,
                RenderCommand::Mount { .. }
                    | RenderCommand::Unmount { .. }
                    | RenderCommand::Refresh { .. }
            ));
        }
    }
}

#[test]
fn every_command_has_its_phase() {
    assert_eq!(RenderCommand::Mount { object: 1 }.phase(), FramePhase::ResolvePending);
    assert_eq!(RenderCommand::Unmount { object: 1 }.phase(), FramePhase::ResolvePending);
    assert_eq!(RenderCommand::Refresh { object: 1 }.phase(), FramePhase::ResolvePending);
    assert_eq!(RenderCommand::UploadTexture { texture: 1 }.phase(), FramePhase::ResolvePending);
    assert_eq!(
        RenderCommand::Draw { object: 1, vertices: 3 }.phase(),
        FramePhase::DrawObjects
    );
    assert_eq!(RenderCommand::BindScreenTexture.phase(), FramePhase::BuildingPipeline);
    assert_eq!(RenderCommand::DrawQuad { vertices: 6 }.phase(), FramePhase::Composite);
    assert_eq!(RenderCommand::Submit.phase(), FramePhase::Composite);
    assert_eq!(RenderCommand::Present.phase(), FramePhase::Present);
}

#[test]
fn a_lost_surface_is_configured_again_and_the_frame_retried() {
    let mut ctx = fresh_context();
    let mut renderer = Renderer::new(320, 200, &mut ctx);
    renderer.attach(&mut ctx);
    ctx.take_commands();
    for error in [SurfaceError::Lost, SurfaceError::Outdated] {
        assert_eq!(renderer.recover(error, &mut ctx), Recovery::Retry);
        assert_eq!(
            ctx.take_commands(),
            vec![
                RenderCommand::ConfigureSurface { width: 320, height: 200 },
                RenderCommand::CreateScreenTexture { width: 320, height: 200 },
                RenderCommand::BindScreenTexture,
                RenderCommand::CreateDepthTexture { width: 320, height: 200 },
            ]
        );
    }
    assert_eq!((renderer.width(), renderer.height()), (320, 200));
}

#[test]
fn out_of_memory_is_fatal_and_a_timeout_costs_one_frame() {
    let mut ctx = fresh_context();
    let mut renderer = Renderer::new(320, 200, &mut ctx);
    renderer.attach(&mut ctx);
    ctx.take_commands();
    assert_eq!(renderer.recover(SurfaceError::OutOfMemory, &mut ctx), Recovery::Fatal);
    assert!(ctx.take_commands().is_empty());
    assert_eq!(renderer.recover(SurfaceError::Timeout, &mut ctx), Recovery::SkipFrame);
    assert!(ctx.take_commands().is_empty());
}

#[test]
fn the_clear_colours_are_the_bits_of_their_numbers() {
    assert_eq!(
        scene_clear(),
        ClearColor {
            r: 0.05f64.to_bits(),
            g: 0.05f64.to_bits(),
            b: 0.05f64.to_bits(),
            a: 1.0f64.to_bits()
        }
    );
    assert_eq!(
        surface_clear(),
        ClearColor {
            r: 0.1f64.to_bits(),
            g: 0.1f64.to_bits(),
            b: 0.3f64.to_bits(),
            a: 1.0f64.to_bits()
        }
    );
    assert_eq!(f32::from_bits(byd::renderer::FAR_DEPTH), 1.0);
}

#[test]
fn a_context_hands_its_commands_out_once() {
    let mut ctx = fresh_context();
    ctx.record(RenderCommand::Submit);
    ctx.record(RenderCommand::Present);
    assert_eq!(ctx.take_commands(), vec![RenderCommand::Submit, RenderCommand::Present]);
    assert!(ctx.take_commands().is_empty());
    assert_eq!(ctx.layout.alignment(), 256);
}
