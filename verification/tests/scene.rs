use byd::color::default_color;
use byd::debug_normal::DebugNormals;
use byd::geometry::Geometry;
use byd::gltf::PrimitiveVertex;
use byd::layout::{UniformLayout, MAX_OBJECTS};
use byd::material::{
    BasicMaterial, CustomMaterial, LineMaterial, MaterialKind, PipelineFamily, TextureMaterial,
};
use byd::math::{Matrix4, Point3, Vector4};
use byd::mesh::{Mesh, SimpleVertex};
use byd::pipelines::{ActorUniform, CameraUniform};
use byd::render_context::{RenderCommand, RenderContext, UniformBuffer};
use byd::scene::{Scene, SceneError};
use byd::scene_object::{AnyObject, SceneObject};
use byd::texture::Texture;

fn translation(x: f32, y: f32, z: f32) -> Matrix4 {
    let mut m = Matrix4::identity();
    m.w = Vector4::new(x.to_bits(), y.to_bits(), z.to_bits(), 1.0f32.to_bits());
    m
}

fn camera() -> CameraUniform {
    CameraUniform { view: translation(0.0, 0.0, -5.0), projection: Matrix4::identity() }
}

fn context() -> RenderContext {
    RenderContext::new(UniformLayout::new(256).unwrap(), camera())
}

fn cube_at(x: f32) -> Mesh<SimpleVertex> {
    let mut cube: Mesh<SimpleVertex> =
        Mesh::new(Geometry::cube(), BasicMaterial::new(default_color()));
    cube.transform = translation(x, 0.0, 0.0);
    cube
}

fn mounts(commands: &[RenderCommand]) -> Vec<usize> {
    commands
        .iter()
        .filter_map(|c| match c {
            RenderCommand::Mount { object } => Some(*object),
            _ => None,
        })
        .collect()
}

fn unmounts(commands: &[RenderCommand]) -> Vec<usize> {
    commands
        .iter()
        .filter_map(|c| match c {
            RenderCommand::Unmount { object } => Some(*object),
            _ => None,
        })
        .collect()
}

fn draws(commands: &[RenderCommand]) -> Vec<(usize, u32)> {
    commands
        .iter()
        .filter_map(|c| match c {
            RenderCommand::Draw { object, vertices } => Some((*object, *vertices)),
            _ => None,
        })
        .collect()
}

fn frame(scene: &mut Scene, ctx: &mut RenderContext) -> Vec<RenderCommand> {
    scene.render(ctx);
    ctx.take_commands()
}

#[test]
fn three_cubes_are_mounted_once_and_drawn_from_their_slots() {
    let alignment = 256;
    let mut scene = Scene::new();
    let a = scene.add(cube_at(1.0)).unwrap();
    let b = scene.add(cube_at(2.0)).unwrap();
    let c = scene.add(cube_at(3.0)).unwrap();
    assert_eq!((a, b, c), (1, 2, 3));

    let mut ctx = context();
    let first = frame(&mut scene, &mut ctx);
    assert_eq!(mounts(&first), vec![1, 2, 3]);
    assert_eq!(draws(&first), vec![(1, 36), (2, 36), (3, 36)]);

    let second = frame(&mut scene, &mut ctx);
    assert!(mounts(&second).is_empty());
    let writes: Vec<(u64, ActorUniform)> = second
        .iter()
        .filter_map(|c| match c {
            RenderCommand::WriteActor { family: PipelineFamily::Simple, offset, actor } => {
                Some((*offset, *actor))
            }
            _ => None,
        })
        .collect();
    assert_eq!(writes.len(), 3);
    assert_eq!(writes[0].0, 0);
    assert_eq!(writes[1].0, alignment as u64);
    assert_eq!(writes[2].0, 2 * alignment as u64);
    assert_eq!(writes[0].1.model, translation(1.0, 0.0, 0.0));
    assert_eq!(writes[1].1.model, translation(2.0, 0.0, 0.0));
    assert_eq!(writes[2].1.model, translation(3.0, 0.0, 0.0));
    assert_eq!(writes[0].1.color, default_color());
    let binds: Vec<u32> = second
        .iter()
        .filter_map(|c| match c {
            RenderCommand::BindActor { dynamic_offset, .. } => Some(*dynamic_offset),
            _ => None,
        })
        .collect();
    assert_eq!(binds, vec![0, alignment, 2 * alignment]);
    assert_eq!(draws(&second), vec![(1, 36), (2, 36), (3, 36)]);
}

#[test]
fn second_frame_is_exactly_camera_and_draws() {
    let mut scene = Scene::new();
    scene.add(cube_at(1.0)).unwrap();
    let mut ctx = context();
    let _ = frame(&mut scene, &mut ctx);
    let second = frame(&mut scene, &mut ctx);
    let simple = PipelineFamily::Simple;
    assert_eq!(
        second,
        vec![
            RenderCommand::WriteCamera { family: simple, camera: camera() },
            RenderCommand::WriteCamera { family: PipelineFamily::Line, camera: camera() },
            RenderCommand::WriteActor {
                family: simple,
                offset: 0,
                actor: ActorUniform { color: default_color(), model: translation(1.0, 0.0, 0.0) },
            },
            RenderCommand::BindActor { family: simple, dynamic_offset: 0 },
            RenderCommand::BindTexture { family: simple, texture: 0, enabled_offset: 0 },
            RenderCommand::Draw { object: 1, vertices: 36 },
        ]
    );
}

#[test]
fn first_frame_builds_the_buffers_before_anything_else() {
    let mut scene = Scene::new();
    let mut ctx = context();
    let first = frame(&mut scene, &mut ctx);
    let simple = PipelineFamily::Simple;
    let line = PipelineFamily::Line;
    assert_eq!(
        first,
        vec![
            RenderCommand::CreatePipeline { family: simple },
            RenderCommand::CreateBuffer { family: simple, buffer: UniformBuffer::Camera, size: 256 },
            RenderCommand::CreateBuffer {
                family: simple,
                buffer: UniformBuffer::Actor,
                size: 2048 * 256,
            },
            RenderCommand::CreateBuffer {
                family: simple,
                buffer: UniformBuffer::TextureEnabled,
                size: 512,
            },
            RenderCommand::WriteFlag { family: simple, offset: 0, value: 0 },
            RenderCommand::WriteFlag { family: simple, offset: 256, value: 1 },
            RenderCommand::CreateBindGroup { family: simple, camera_size: 128, actor_size: 80 },
            RenderCommand::CreatePipeline { family: line },
            RenderCommand::CreateBuffer { family: line, buffer: UniformBuffer::Camera, size: 256 },
            RenderCommand::CreateBuffer {
                family: line,
                buffer: UniformBuffer::Actor,
                size: 2048 * 256,
            },
            RenderCommand::CreateBindGroup { family: line, camera_size: 128, actor_size: 80 },
            RenderCommand::AllocateTexture { texture: 0, width: 1, height: 1 },
            RenderCommand::UploadTexture { texture: 0 },
            RenderCommand::CreateTextureBindGroup { family: simple, texture: 0 },
            RenderCommand::WriteCamera { family: simple, camera: camera() },
            RenderCommand::WriteCamera { family: line, camera: camera() },
        ]
    );
    assert_eq!(scene.layout().unwrap().alignment(), 256);
}

#[test]
fn the_scene_keeps_the_layout_of_its_first_frame() {
    let mut scene = Scene::new();
    scene.add(cube_at(1.0)).unwrap();
    scene.add(cube_at(2.0)).unwrap();
    let mut ctx = context();
    let _ = frame(&mut scene, &mut ctx);
    let mut other = RenderContext::new(UniformLayout::new(512).unwrap(), camera());
    let later = frame(&mut scene, &mut other);
    let binds: Vec<u32> = later
        .iter()
        .filter_map(|c| match c {
            RenderCommand::BindActor { dynamic_offset, .. } => Some(*dynamic_offset),
            _ => None,
        })
        .collect();
    assert_eq!(binds, vec![0, 256]);
    assert!(!later.iter().any(|c| matches!(c, RenderCommand::CreateBuffer { .. })));
}

#[test]
fn ids_are_distinct_and_increase() {
    let mut scene = Scene::new();
    let mut last = 0;
    for i in 0..50 {
        let id = scene.add(cube_at(i as f32)).unwrap();
        assert!(id > last);
        last = id;
        if i % 3 == 0 {
            scene.remove(id);
        }
        if i % 7 == 0 {
            let mut ctx = context();
            let _ = frame(&mut scene, &mut ctx);
        }
    }
    assert_eq!(last, 50);
}

#[test]
fn a_removed_id_is_never_handed_out_again() {
    let mut scene = Scene::new();
    let mut ctx = context();
    let first = scene.add(cube_at(1.0)).unwrap();
    let _ = frame(&mut scene, &mut ctx);
    scene.remove(first);
    let _ = frame(&mut scene, &mut ctx);
    assert!(scene.get(first).is_none());
    for _ in 0..10 {
        let id = scene.add(cube_at(2.0)).unwrap();
        assert_ne!(id, first);
        assert!(id > first);
    }
}

#[test]
fn a_freed_slot_is_taken_again_but_not_its_id() {
    let mut scene = Scene::new();
    let mut ctx = context();
    let a = scene.add(cube_at(1.0)).unwrap();
    let b = scene.add(cube_at(2.0)).unwrap();
    let c = scene.add(cube_at(3.0)).unwrap();
    assert_eq!(scene.slot_of(b), Some(1));
    let _ = frame(&mut scene, &mut ctx);
    scene.remove(b);
    // the slot is taken until the next frame lets the object go
    assert_eq!(scene.slot_of(b), Some(1));
    let _ = frame(&mut scene, &mut ctx);
    assert_eq!(scene.slot_of(b), None);
    let d = scene.add(cube_at(4.0)).unwrap();
    assert_eq!(d, 4);
    assert_eq!(scene.slot_of(a), Some(0));
    assert_eq!(scene.slot_of(d), Some(1));
    assert_eq!(scene.slot_of(c), Some(2));
    let later = frame(&mut scene, &mut ctx);
    let offsets: Vec<(u64, Matrix4)> = later
        .iter()
        .filter_map(|c| match c {
            RenderCommand::WriteActor { offset, actor, .. } => Some((*offset, actor.model)),
            _ => None,
        })
        .collect();
    assert_eq!(
        offsets,
        vec![
            (0, translation(1.0, 0.0, 0.0)),
            (256, translation(4.0, 0.0, 0.0)),
            (512, translation(3.0, 0.0, 0.0)),
        ]
    );
}

#[test]
fn every_mount_is_followed_by_exactly_one_unmount() {
    let mut scene = Scene::new();
    let mut ctx = context();
    let mut all = Vec::new();
    let a = scene.add(cube_at(1.0)).unwrap();
    let b = scene.add(cube_at(2.0)).unwrap();
    all.extend(frame(&mut scene, &mut ctx));
    scene.remove(a);
    let c = scene.add(cube_at(3.0)).unwrap();
    all.extend(frame(&mut scene, &mut ctx));
    all.extend(frame(&mut scene, &mut ctx));
    scene.remove(b);
    scene.remove(b);
    scene.remove(c);
    all.extend(frame(&mut scene, &mut ctx));
    all.extend(frame(&mut scene, &mut ctx));
    let mut mounted = mounts(&all);
    let mut unmounted = unmounts(&all);
    mounted.sort();
    unmounted.sort();
    assert_eq!(mounted, vec![1, 2, 3]);
    assert_eq!(unmounted, vec![1, 2, 3]);
    for id in [a, b, c] {
        let m = all.iter().position(|x| *x == RenderCommand::Mount { object: id }).unwrap();
        let u = all.iter().position(|x| *x == RenderCommand::Unmount { object: id }).unwrap();
        assert!(m < u);
        assert!(scene.get(id).is_none());
    }
    assert_eq!(scene.len(), 0);
}

#[test]
fn removing_before_the_first_frame_mounts_and_unmounts_nothing() {
    let mut scene = Scene::new();
    let id = scene.add(cube_at(1.0)).unwrap();
    assert!(scene.get(id).is_some());
    scene.remove(id);
    assert!(scene.get(id).is_none());
    assert_eq!(scene.len(), 0);
    let mut ctx = context();
    let first = frame(&mut scene, &mut ctx);
    assert!(mounts(&first).is_empty());
    assert!(unmounts(&first).is_empty());
    assert!(draws(&first).is_empty());
    assert!(scene.get(id).is_none());
    assert!(!scene.contains(id));
    let second = frame(&mut scene, &mut ctx);
    assert!(mounts(&second).is_empty());
    assert!(unmounts(&second).is_empty());
}

#[test]
fn remove_twice_is_remove_once() {
    let mut once = Scene::new();
    let mut twice = Scene::new();
    let mut ctx_once = context();
    let mut ctx_twice = context();
    let a = once.add(cube_at(1.0)).unwrap();
    let b = twice.add(cube_at(1.0)).unwrap();
    assert_eq!(a, b);
    assert_eq!(frame(&mut once, &mut ctx_once), frame(&mut twice, &mut ctx_twice));
    once.remove(a);
    twice.remove(b);
    twice.remove(b);
    assert!(once.get(a).is_some());
    assert!(twice.get(b).is_some());
    let left = frame(&mut once, &mut ctx_once);
    let right = frame(&mut twice, &mut ctx_twice);
    assert_eq!(left, right);
    assert_eq!(unmounts(&right), vec![b]);
    twice.remove(b);
    assert_eq!(frame(&mut once, &mut ctx_once), frame(&mut twice, &mut ctx_twice));
}

#[test]
fn remove_of_an_unknown_id_changes_nothing() {
    let mut scene = Scene::new();
    let id = scene.add(cube_at(1.0)).unwrap();
    scene.remove(id + 1);
    scene.remove(0);
    let mut ctx = context();
    let first = frame(&mut scene, &mut ctx);
    assert_eq!(mounts(&first), vec![id]);
    assert_eq!(scene.len(), 1);
}

#[test]
fn access_with_the_wrong_type_changes_nothing() {
    let mut scene = Scene::new();
    let id = scene.add(cube_at(1.0)).unwrap();
    let mut called = false;
    scene.with_object_mut(id, |mut normals: DebugNormals| {
        normals.transform = translation(9.0, 9.0, 9.0);
        normals
    });
    scene.with_object_mut(id, |mut mesh: Mesh<PrimitiveVertex>| {
        mesh.transform = translation(9.0, 9.0, 9.0);
        mesh
    });
    scene.with_object(id, |_: &DebugNormals| called = true);
    assert!(!called);
    match scene.get(id) {
        Some(AnyObject::Mesh(mesh)) => assert_eq!(mesh.transform, translation(1.0, 0.0, 0.0)),
        _ => panic!("the cube is gone"),
    }
    // an id that is not there
    scene.with_object_mut(id + 5, |mut mesh: Mesh<SimpleVertex>| {
        mesh.transform = translation(9.0, 9.0, 9.0);
        mesh
    });
    assert!(scene.get(id + 5).is_none());
}

#[test]
fn access_with_the_right_type_changes_the_object() {
    let mut scene = Scene::new();
    let id = scene.add(cube_at(1.0)).unwrap();
    scene.with_object_mut(id, |mut mesh: Mesh<SimpleVertex>| {
        mesh.transform = translation(7.0, 8.0, 9.0);
        mesh
    });
    let mut seen = None;
    scene.with_object(id, |mesh: &Mesh<SimpleVertex>| seen = Some(mesh.transform));
    assert_eq!(seen, Some(translation(7.0, 8.0, 9.0)));
    match scene.get_mut(id) {
        Some(AnyObject::Mesh(mesh)) => mesh.set_material(LineMaterial::new()),
        _ => panic!("the cube is gone"),
    }
    assert_eq!(scene.get(id).unwrap().material(), MaterialKind::Line(LineMaterial::new()));
    assert!(scene.get_mut(id + 1).is_none());
}

#[test]
fn the_placeholder_texture_is_always_there() {
    let mut scene = Scene::new();
    let placeholder = scene.texture(0).unwrap();
    assert_eq!((placeholder.width(), placeholder.height()), (1, 1));
    assert_eq!(placeholder.pixels(), &[255u8, 255, 255, 255][..]);
    assert!(!scene.is_texture_bound(0));
    scene.add(cube_at(1.0)).unwrap();
    let mut ctx = context();
    let first = frame(&mut scene, &mut ctx);
    assert!(scene.is_texture_bound(0));
    assert!(scene.texture(0).unwrap().is_allocated());
    assert!(first.contains(&RenderCommand::AllocateTexture { texture: 0, width: 1, height: 1 }));
    assert!(first.contains(&RenderCommand::CreateTextureBindGroup {
        family: PipelineFamily::Simple,
        texture: 0
    }));
    assert!(first.contains(&RenderCommand::BindTexture {
        family: PipelineFamily::Simple,
        texture: 0,
        enabled_offset: 0
    }));
}

#[test]
fn textures_get_ids_from_one_and_are_bound_with_the_flag_on() {
    let mut scene = Scene::new();
    let texture = Texture::new(2, 2);
    let id = scene.add_texture(texture).unwrap();
    assert_eq!(id, 1);
    assert_eq!(scene.add_texture(Texture::new(1, 3)).unwrap(), 2);
    let mut textured: Mesh<SimpleVertex> = Mesh::new(Geometry::cube(), TextureMaterial::new(id));
    textured.transform = translation(1.0, 2.0, 3.0);
    let object = scene.add(textured).unwrap();
    let mut ctx = context();
    let first = frame(&mut scene, &mut ctx);
    assert!(first.contains(&RenderCommand::AllocateTexture { texture: 1, width: 2, height: 2 }));
    assert!(first.contains(&RenderCommand::AllocateTexture { texture: 2, width: 1, height: 3 }));
    assert!(first.contains(&RenderCommand::BindTexture {
        family: PipelineFamily::Simple,
        texture: 1,
        enabled_offset: 256
    }));
    let black = Vector4::new(0, 0, 0, 1.0f32.to_bits());
    assert!(first.contains(&RenderCommand::WriteActor {
        family: PipelineFamily::Simple,
        offset: 0,
        actor: ActorUniform { color: black, model: translation(1.0, 2.0, 3.0) },
    }));
    assert_eq!(draws(&first), vec![(object, 36)]);
    // a second frame readies nothing again
    let second = frame(&mut scene, &mut ctx);
    assert!(!second.iter().any(|c| matches!(c, RenderCommand::AllocateTexture { .. })));
}

#[test]
fn a_texture_that_is_not_there_is_not_bound() {
    let mut scene = Scene::new();
    let mesh: Mesh<SimpleVertex> = Mesh::new(Geometry::cube(), TextureMaterial::new(77));
    scene.add(mesh).unwrap();
    let mut ctx = context();
    let first = frame(&mut scene, &mut ctx);
    assert!(!first.iter().any(|c| matches!(c, RenderCommand::BindTexture { .. })));
    assert_eq!(draws(&first).len(), 1);
}

#[test]
fn the_texture_queue_waits_for_the_buffers() {
    let mut scene = Scene::new();
    let mut ctx = context();
    scene.process_texture_queue(&mut ctx);
    assert!(ctx.take_commands().is_empty());
    assert!(!scene.is_texture_bound(0));
    let _ = frame(&mut scene, &mut ctx);
    scene.add_texture(Texture::new(4, 4)).unwrap();
    scene.process_texture_queue(&mut ctx);
    assert_eq!(
        ctx.take_commands(),
        vec![
            RenderCommand::AllocateTexture { texture: 1, width: 4, height: 4 },
            RenderCommand::UploadTexture { texture: 1 },
            RenderCommand::CreateTextureBindGroup { family: PipelineFamily::Simple, texture: 1 },
        ]
    );
    scene.process_texture_queue(&mut ctx);
    assert!(ctx.take_commands().is_empty());
}

#[test]
fn lines_and_programs_are_drawn_with_their_own_families() {
    let mut scene = Scene::new();
    let mut normals = DebugNormals::new();
    normals.set_vertices(&vec![
        (Point3::new(0, 0, 0), Point3::new(1, 1, 1)),
        (Point3::new(2, 2, 2), Point3::new(3, 3, 3)),
    ]);
    let lines = scene.add(normals).unwrap();
    let custom: Mesh<SimpleVertex> = Mesh::new(Geometry::cube(), CustomMaterial::new(5));
    let program = scene.add(custom).unwrap();
    let mut ctx = context();
    let first = frame(&mut scene, &mut ctx);
    let magenta = Vector4::new(1.0f32.to_bits(), 0, 1.0f32.to_bits(), 1.0f32.to_bits());
    let black = Vector4::new(0, 0, 0, 1.0f32.to_bits());
    let tail: Vec<RenderCommand> = first[first.len() - 6..].to_vec();
    assert_eq!(
        tail,
        vec![
            RenderCommand::WriteActor {
                family: PipelineFamily::Line,
                offset: 0,
                actor: ActorUniform { color: magenta, model: Matrix4::identity() },
            },
            RenderCommand::BindActor { family: PipelineFamily::Line, dynamic_offset: 0 },
            RenderCommand::Draw { object: lines, vertices: 4 },
            RenderCommand::WriteActor {
                family: PipelineFamily::Custom(5),
                offset: 256,
                actor: ActorUniform { color: black, model: Matrix4::identity() },
            },
            RenderCommand::BindActor { family: PipelineFamily::Custom(5), dynamic_offset: 256 },
            RenderCommand::Draw { object: program, vertices: 36 },
        ]
    );
}

#[test]
fn changed_vertices_get_a_fresh_buffer_before_the_draws() {
    let mut scene = Scene::new();
    let id = scene.add(cube_at(1.0)).unwrap();
    let mut ctx = context();
    let _ = frame(&mut scene, &mut ctx);
    scene.with_object_mut(id, |mut mesh: Mesh<SimpleVertex>| {
        let three = vec![SimpleVertex::default(); 3];
        mesh.geometry_mut().set_vertices(three);
        mesh
    });
    let second = frame(&mut scene, &mut ctx);
    let refresh = second.iter().position(|c| *c == RenderCommand::Refresh { object: id }).unwrap();
    let draw =
        second.iter().position(|c| *c == RenderCommand::Draw { object: id, vertices: 3 }).unwrap();
    let camera = second.iter().position(|c| matches!(c, RenderCommand::WriteCamera { .. })).unwrap();
    assert!(refresh < camera && camera < draw);
    let third = frame(&mut scene, &mut ctx);
    assert!(!third.iter().any(|c| matches!(c, RenderCommand::Refresh { .. })));
    assert_eq!(draws(&third), vec![(id, 3)]);
}

#[test]
fn the_scene_is_full_at_its_capacity() {
    let mut scene = Scene::new();
    let empty = || -> Mesh<SimpleVertex> {
        Mesh::new(Geometry::new(Vec::new()), BasicMaterial::new(default_color()))
    };
    for i in 0..MAX_OBJECTS {
        assert_eq!(scene.add(empty()), Ok(i as usize + 1));
    }
    assert_eq!(scene.add(empty()), Err(SceneError::Full));
    assert_eq!(scene.len(), MAX_OBJECTS as usize);
    let mut ctx = context();
    let _ = frame(&mut scene, &mut ctx);
    // a mounted object that is removed holds its slot until the next frame
    scene.remove(10);
    assert_eq!(scene.add(empty()), Err(SceneError::Full));
    let _ = frame(&mut scene, &mut ctx);
    let id = scene.add(empty()).unwrap();
    assert_eq!(id, MAX_OBJECTS as usize + 1);
    assert_eq!(scene.slot_of(id), Some(9));
    assert_eq!(scene.add(empty()), Err(SceneError::Full));
    // an object that was never mounted gives its slot back at once
    scene.remove(id);
    assert_eq!(scene.add(empty()), Ok(MAX_OBJECTS as usize + 2));
}

#[test]
fn every_write_stays_in_its_slot() {
    let mut scene = Scene::new();
    for i in 0..40 {
        scene.add(cube_at(i as f32)).unwrap();
    }
    let alignment = 256u64;
    let mut ctx = context();
    let first = frame(&mut scene, &mut ctx);
    let mut seen = Vec::new();
    for command in &first {
        if let RenderCommand::WriteActor { offset, .. } = command {
            assert_eq!(offset % alignment, 0);
            assert!(offset + 80 <= MAX_OBJECTS * alignment);
            assert!(!seen.contains(offset));
            seen.push(*offset);
        }
    }
    assert_eq!(seen.len(), 40);
}

#[test]
fn objects_of_any_kind_can_be_added_as_they_are() {
    let mut scene = Scene::new();
    let id = scene.add_any(cube_at(1.0).upcast()).unwrap();
    assert_eq!(id, 1);
    assert!(matches!(scene.get(id), Some(AnyObject::Mesh(_))));
}

#[test]
fn ids_run_out_at_the_last_id() {
    let mut scene = Scene::starting_at(usize::MAX - 1, usize::MAX - 1);
    assert_eq!(scene.next_object_id(), usize::MAX - 1);
    assert_eq!(scene.add(cube_at(1.0)), Ok(usize::MAX - 1));
    assert_eq!(scene.add(cube_at(2.0)), Err(SceneError::IdsExhausted));
    assert_eq!(scene.len(), 1);
    assert_eq!(scene.next_object_id(), usize::MAX);
    assert_eq!(scene.add_texture(Texture::new(1, 1)), Ok(usize::MAX - 1));
    assert_eq!(scene.add_texture(Texture::new(1, 1)), Err(SceneError::IdsExhausted));
    assert_eq!(scene.next_texture_id(), usize::MAX);
    assert!(scene.texture(usize::MAX - 1).is_some());
}

#[test]
fn a_scene_goes_on_where_another_left_off() {
    let mut first = Scene::new();
    let a = first.add(cube_at(1.0)).unwrap();
    let b = first.add(cube_at(2.0)).unwrap();
    let mut second = Scene::starting_at(first.next_object_id(), first.next_texture_id());
    let c = second.add(cube_at(3.0)).unwrap();
    assert_eq!((a, b, c), (1, 2, 3));
    assert_eq!(second.slot_of(c), Some(0));
    // the placeholder keeps its id, and no id is below the first
    let third = Scene::starting_at(0, 0);
    assert_eq!((third.next_object_id(), third.next_texture_id()), (1, 1));
    assert!(third.texture(0).is_some());
}

#[test]
fn the_buffers_are_built_with_the_first_frame_and_never_again() {
    let mut scene = Scene::new();
    let mut ctx = context();
    let first = frame(&mut scene, &mut ctx);
    let builds = |commands: &[RenderCommand]| {
        commands
            .iter()
            .filter(|c| {
                matches!(
                    c,
                    RenderCommand::CreatePipeline { .. }
                        | RenderCommand::CreateBuffer { .. }
                        | RenderCommand::CreateBindGroup { .. }
                        | RenderCommand::WriteFlag { .. }
                )
            })
            .count()
    };
    assert_eq!(builds(&first), 11);
    for i in 0..5 {
        let id = scene.add(cube_at(i as f32)).unwrap();
        if i % 2 == 0 {
            scene.remove(id);
        }
        assert_eq!(builds(&frame(&mut scene, &mut ctx)), 0);
    }
}

#[test]
fn a_mesh_without_a_material_is_drawn_in_the_fallback_colour() {
    let mut scene = Scene::new();
    let mesh: Mesh<SimpleVertex> = Mesh::plain(Geometry::cube());
    assert_eq!(mesh.material(), MaterialKind::fallback());
    scene.add(mesh).unwrap();
    let mut ctx = context();
    let first = frame(&mut scene, &mut ctx);
    assert!(first.contains(&RenderCommand::WriteActor {
        family: PipelineFamily::Simple,
        offset: 0,
        actor: ActorUniform { color: default_color(), model: Matrix4::identity() },
    }));
    assert_eq!(draws(&first), vec![(1, 36)]);
}

#[test]
fn an_object_that_was_never_mounted_leaves_at_once() {
    let mut scene = Scene::new();
    let mut ctx = context();
    let a = scene.add(cube_at(1.0)).unwrap();
    let _ = frame(&mut scene, &mut ctx);
    let b = scene.add(cube_at(2.0)).unwrap();
    assert_eq!(scene.slot_of(b), Some(1));
    scene.remove(b);
    assert!(!scene.contains(b));
    assert_eq!(scene.slot_of(b), None);
    scene.remove(b);
    // the slot is free again, the id is not
    let c = scene.add(cube_at(3.0)).unwrap();
    assert_eq!(c, b + 1);
    assert_eq!(scene.slot_of(c), Some(1));
    let second = frame(&mut scene, &mut ctx);
    assert_eq!(mounts(&second), vec![c]);
    assert!(unmounts(&second).is_empty());
    // a mounted object stays until the next frame
    scene.remove(a);
    assert!(scene.contains(a));
    let third = frame(&mut scene, &mut ctx);
    assert_eq!(unmounts(&third), vec![a]);
    assert!(!scene.contains(a));
}
