use byd::pipelines::line::LinePipeline;
use byd::pipelines::primitive::PrimitivePipeline;
use byd::pipelines::quad::{quad_vertices, quad_words, QuadPipeline, Vertex, QUAD_VERTICES};
use byd::pipelines::simple::SimplePipeline;
use byd::pipelines::{
    texture_bind_group_layout, uniform_bind_group_layout, BindGroupLayoutEntry, BindingType,
    FrontFace, Pipeline, PrimitiveTopology, Shader, ShaderStage, TextureFormat, ACTOR_BINDING,
    CAMERA_BINDING, SAMPLER_BINDING, TEXTURE_BINDING, TEXTURE_ENABLED_BINDING,
};
use byd::vertex::{VertexAttribute, VertexFormat};

fn dynamic(entries: &[BindGroupLayoutEntry]) -> usize {
    entries
        .iter()
        .filter(|e| e.ty == BindingType::Uniform { has_dynamic_offset: true })
        .count()
}

#[test]
fn the_uniform_bind_group_takes_the_slot_of_the_object_with_each_draw() {
    let entries = uniform_bind_group_layout();
    assert_eq!(
        entries,
        vec![
            BindGroupLayoutEntry {
                binding: CAMERA_BINDING,
                visibility: ShaderStage::Vertex,
                ty: BindingType::Uniform { has_dynamic_offset: false },
            },
            BindGroupLayoutEntry {
                binding: ACTOR_BINDING,
                visibility: ShaderStage::Vertex,
                ty: BindingType::Uniform { has_dynamic_offset: true },
            },
        ]
    );
    assert_eq!((CAMERA_BINDING, ACTOR_BINDING), (0, 1));
    assert_eq!(dynamic(&entries), 1);
}

#[test]
fn the_texture_bind_group_takes_the_slot_of_the_flag_with_each_draw() {
    let entries = texture_bind_group_layout();
    assert_eq!(entries.len(), 3);
    assert_eq!(entries[0].binding, TEXTURE_ENABLED_BINDING);
    assert_eq!(entries[0].ty, BindingType::Uniform { has_dynamic_offset: true });
    assert_eq!((entries[1].binding, entries[1].ty), (TEXTURE_BINDING, BindingType::Texture));
    assert_eq!((entries[2].binding, entries[2].ty), (SAMPLER_BINDING, BindingType::Sampler));
    assert!(entries.iter().all(|e| e.visibility == ShaderStage::Fragment));
    assert_eq!(dynamic(&entries), 1);
}

#[test]
fn the_simple_pipeline_fills_triangles_and_drops_backs() {
    let pipeline = SimplePipeline::new();
    let d = pipeline.descriptor();
    assert_eq!(d.shader, Shader::Simple);
    assert_eq!(d.bind_group_layout, uniform_bind_group_layout());
    assert_eq!(d.texture_bind_group_layout, Some(texture_bind_group_layout()));
    assert_eq!(d.vertex_layout.array_stride, 32);
    assert_eq!(d.target_format, TextureFormat::Bgra8UnormSrgb);
    assert_eq!(d.topology, PrimitiveTopology::TriangleList);
    assert_eq!(d.front_face, FrontFace::Cw);
    assert!(d.cull_back_faces);
    assert_eq!(d.depth_format, Some(TextureFormat::Depth32Float));
    assert_eq!(pipeline.bind_group_layout(), &uniform_bind_group_layout());
    assert_eq!(pipeline.texture_bind_group_layout(), Some(&texture_bind_group_layout()));
}

#[test]
fn the_primitive_pipeline_drops_no_face() {
    let pipeline = PrimitivePipeline::new();
    let d = pipeline.descriptor();
    assert_eq!(d.shader, Shader::Primitive);
    assert_eq!(d.target_format, TextureFormat::Rgba8UnormSrgb);
    assert_eq!(d.topology, PrimitiveTopology::TriangleList);
    assert!(!d.cull_back_faces);
    assert_eq!(d.vertex_layout.array_stride, 32);
    assert!(pipeline.texture_bind_group_layout().is_some());
}

#[test]
fn the_line_pipeline_takes_vertices_two_by_two_and_has_no_texture() {
    let pipeline = LinePipeline::new();
    let d = pipeline.descriptor();
    assert_eq!(d.shader, Shader::Line);
    assert_eq!(d.topology, PrimitiveTopology::LineList);
    assert_eq!(d.target_format, TextureFormat::Rgba8UnormSrgb);
    assert!(!d.cull_back_faces);
    assert_eq!(d.texture_bind_group_layout, None);
    assert_eq!(pipeline.texture_bind_group_layout(), None);
    assert_eq!(pipeline.bind_group_layout().len(), 2);
}

#[test]
fn the_quad_pipeline_reads_the_colour_target_and_tests_no_depth() {
    let pipeline = QuadPipeline::new();
    let d = pipeline.descriptor();
    assert_eq!(d.shader, Shader::Quad);
    assert_eq!(
        d.bind_group_layout,
        vec![
            BindGroupLayoutEntry {
                binding: 0,
                visibility: ShaderStage::Fragment,
                ty: BindingType::Texture,
            },
            BindGroupLayoutEntry {
                binding: 1,
                visibility: ShaderStage::Fragment,
                ty: BindingType::Sampler,
            },
        ]
    );
    assert_eq!(dynamic(&d.bind_group_layout), 0);
    assert_eq!(d.front_face, FrontFace::Ccw);
    assert!(d.cull_back_faces);
    assert_eq!(d.depth_format, None);
    assert_eq!(d.target_format, TextureFormat::Bgra8UnormSrgb);
    assert_eq!(d.vertex_layout.array_stride, 12);
    assert_eq!(pipeline.texture_bind_group_layout(), None);
}

#[test]
fn the_quad_covers_the_screen_at_depth_one_half() {
    let vertices = quad_vertices();
    assert_eq!(vertices.len(), 6);
    let corners: Vec<(f32, f32, f32)> = vertices
        .iter()
        .map(|v| {
            (
                f32::from_bits(v.position.x),
                f32::from_bits(v.position.y),
                f32::from_bits(v.position.z),
            )
        })
        .collect();
    assert_eq!(
        corners,
        vec![
            (1.0, 1.0, 0.5),
            (-1.0, 1.0, 0.5),
            (1.0, -1.0, 0.5),
            (-1.0, -1.0, 0.5),
            (1.0, -1.0, 0.5),
            (-1.0, 1.0, 0.5),
        ]
    );
    let words = quad_words();
    assert_eq!(words.len(), 18);
    for i in 0..6 {
        assert_eq!(&words[3 * i..3 * i + 3], &QUAD_VERTICES[i][..]);
    }
    assert_eq!(Vertex::new(1, 2, 3).position, byd::math::Point3::new(1, 2, 3));
    assert_eq!(
        Vertex::buffer_layout().attributes,
        vec![VertexAttribute { offset: 0, shader_location: 0, format: VertexFormat::Float32x3 }]
    );
}
