use byd::geometry::{Geometry, GeometryError, VertexBuffer, CUBE_VERTICES};
use byd::gltf::PrimitiveVertex;
use byd::material::{BasicMaterial, LineMaterial};
use byd::math::{Matrix4, Point2, Point3, Vector3, Vector4};
use byd::mesh::{Mesh, SimpleVertex};
use byd::pipelines::{ActorUniform, CameraUniform, Uniform};
use byd::scene_object::{AnyObject, SceneObject};
use byd::vertex::{Vertex, VertexAttribute, VertexFormat};

fn bits(x: f32) -> u32 {
    x.to_bits()
}

fn vertex(x: f32, y: f32, z: f32) -> SimpleVertex {
    SimpleVertex {
        position: Point3::new(bits(x), bits(y), bits(z)),
        normal: Vector3::new(bits(0.5), bits(0.25), bits(0.125)),
        uv: Point2::new(bits(2.0), bits(3.0)),
    }
}

fn native(words: &[u32]) -> Vec<u8> {
    words.iter().flat_map(|w| w.to_ne_bytes()).collect()
}

#[test]
fn the_cube_has_thirty_six_corners_at_plus_and_minus_one() {
    let cube: Geometry<SimpleVertex> = Geometry::cube();
    assert_eq!(cube.vertex_count(), 36);
    assert_eq!(cube.vertices().len(), 36);
    assert!(cube.vertex_buffer().is_none());
    for (i, v) in cube.vertices().iter().enumerate() {
        let corner = CUBE_VERTICES[i];
        for word in corner {
            assert!(f32::from_bits(word).abs() == 1.0);
        }
        assert_eq!(v.position, Point3::new(corner[0], corner[1], corner[2]));
        assert_eq!(v.normal, Vector3::new(corner[0], corner[1], corner[2]));
        assert_eq!(v.uv, Point2::new(corner[0], corner[1]));
    }
    assert_eq!(cube.vertices()[0].position, Point3::new(bits(-1.0), bits(1.0), bits(-1.0)));
    assert_eq!(cube.vertices()[35].position, Point3::new(bits(1.0), bits(-1.0), bits(1.0)));
}

#[test]
fn a_glt_f_cube_knows_only_positions() {
    let cube: Geometry<PrimitiveVertex> = Geometry::cube();
    assert_eq!(cube.vertex_count(), 36);
    let first = cube.vertices()[0];
    assert_eq!(first.position(), Point3::new(bits(-1.0), bits(1.0), bits(-1.0)));
    assert_eq!(first.normal(), Vector3::new(0, 0, 0));
    assert_eq!(first.texcoord(), Point2::new(0, 0));
}

#[test]
fn allocate_and_free_keep_the_vertices() {
    let mut geometry = Geometry::new(vec![vertex(1.0, 2.0, 3.0), vertex(4.0, 5.0, 6.0)]);
    assert_eq!(geometry.vertex_buffer(), None);
    assert!(geometry.allocate().is_ok());
    assert_eq!(geometry.vertex_buffer(), Some(VertexBuffer { vertex_count: 2 }));
    assert!(!geometry.is_stale());
    assert_eq!(geometry.vertex_count(), 2);
    assert!(geometry.allocate().is_ok());
    assert_eq!(geometry.vertex_buffer(), Some(VertexBuffer { vertex_count: 2 }));
    assert!(geometry.free().is_ok());
    assert_eq!(geometry.vertex_buffer(), None);
    assert!(geometry.free().is_ok());
    assert_eq!(geometry.vertices(), &[vertex(1.0, 2.0, 3.0), vertex(4.0, 5.0, 6.0)][..]);
}

#[test]
fn new_vertices_make_an_existing_buffer_stale() {
    let mut geometry = Geometry::new(vec![vertex(1.0, 2.0, 3.0)]);
    geometry.set_vertices(vec![vertex(0.0, 0.0, 0.0); 5]);
    assert!(!geometry.is_stale());
    assert_eq!(geometry.vertex_count(), 5);
    geometry.allocate().unwrap();
    geometry.set_vertices(vec![vertex(9.0, 9.0, 9.0); 2]);
    assert!(geometry.is_stale());
    // the record still says what the buffer was filled with
    assert_eq!(geometry.vertex_buffer(), Some(VertexBuffer { vertex_count: 5 }));
    geometry.allocate().unwrap();
    assert!(!geometry.is_stale());
    assert_eq!(geometry.vertex_buffer(), Some(VertexBuffer { vertex_count: 2 }));
}

#[test]
fn a_clone_has_the_vertices_and_no_buffer() {
    let mut geometry = Geometry::new(vec![vertex(1.0, 2.0, 3.0)]);
    geometry.allocate().unwrap();
    let copy = geometry.clone();
    assert_eq!(copy.vertices(), geometry.vertices());
    assert_eq!(copy.vertex_buffer(), None);
    assert!(geometry.vertex_buffer().is_some());
}

#[test]
fn the_words_of_a_geometry_are_those_of_its_vertices_in_order() {
    let geometry = Geometry::new(vec![vertex(1.0, 2.0, 3.0), vertex(4.0, 5.0, 6.0)]);
    let expected = vec![
        bits(1.0),
        bits(2.0),
        bits(3.0),
        bits(0.5),
        bits(0.25),
        bits(0.125),
        bits(2.0),
        bits(3.0),
        bits(4.0),
        bits(5.0),
        bits(6.0),
        bits(0.5),
        bits(0.25),
        bits(0.125),
        bits(2.0),
        bits(3.0),
    ];
    assert_eq!(geometry.vertex_words(), expected);
    let bytes = geometry.vertex_bytes();
    assert_eq!(bytes.len(), 64);
    assert_eq!(bytes, native(&expected));
    // 1.0 is 0x3F800000, lowest byte first or highest byte first
    let first = &bytes[0..4];
    assert!(first == &[0x00, 0x00, 0x80, 0x3F][..] || first == &[0x3F, 0x80, 0x00, 0x00][..]);
}

#[test]
fn an_empty_geometry_has_no_bytes() {
    let geometry: Geometry<SimpleVertex> = Geometry::new(Vec::new());
    assert!(geometry.vertex_bytes().is_empty());
    assert!(geometry.vertex_words().is_empty());
}

#[test]
fn an_actor_record_is_colour_then_matrix() {
    let record = ActorUniform {
        color: Vector4::new(1, 2, 3, 4),
        model: Matrix4::from_cols(
            Vector4::new(5, 6, 7, 8),
            Vector4::new(9, 10, 11, 12),
            Vector4::new(13, 14, 15, 16),
            Vector4::new(17, 18, 19, 20),
        ),
    };
    let words: Vec<u32> = (1..=20).collect();
    assert_eq!(record.to_words(), words);
    let bytes = record.as_bytes();
    assert_eq!(bytes.len(), 80);
    assert_eq!(bytes, native(&words));
}

#[test]
fn a_camera_record_is_view_then_projection() {
    let mut view = Matrix4::identity();
    view.w = Vector4::new(100, 200, 300, 400);
    let record = CameraUniform { view, projection: Matrix4::identity() };
    let one = bits(1.0);
    let identity = [one, 0, 0, 0, 0, one, 0, 0, 0, 0, one, 0, 0, 0, 0, one];
    let mut words = vec![one, 0, 0, 0, 0, one, 0, 0, 0, 0, one, 0, 100, 200, 300, 400];
    words.extend_from_slice(&identity);
    assert_eq!(record.to_words(), words);
    assert_eq!(record.as_bytes().len(), 128);
    assert_eq!(record.as_bytes(), native(&words));
}

#[test]
fn a_simple_vertex_lies_in_thirty_two_packed_bytes() {
    let layout = SimpleVertex::buffer_layout();
    assert_eq!(layout.array_stride, 32);
    assert_eq!(
        layout.attributes,
        vec![
            VertexAttribute { offset: 0, shader_location: 0, format: VertexFormat::Float32x3 },
            VertexAttribute { offset: 12, shader_location: 1, format: VertexFormat::Float32x3 },
            VertexAttribute { offset: 24, shader_location: 2, format: VertexFormat::Float32x2 },
        ]
    );
    assert_eq!(PrimitiveVertex::buffer_layout().attributes, layout.attributes);
    assert_eq!(VertexFormat::Float32x2.size(), 8);
    assert_eq!(VertexFormat::Float32x3.size(), 12);
    assert_eq!(VertexFormat::Float32x4.size(), 16);
    let mut words = Vec::new();
    vertex(1.0, 2.0, 3.0).push_words(&mut words);
    assert_eq!(words.len() * 4, layout.array_stride as usize);
}

#[test]
fn a_vertex_from_a_position_points_away_from_the_origin() {
    let p = Point3::new(bits(1.0), bits(-1.0), bits(0.5));
    let v = SimpleVertex::from_position(p);
    assert_eq!(v.position, p);
    assert_eq!(v.normal, Vector3::new(bits(1.0), bits(-1.0), bits(0.5)));
    assert_eq!(v.uv, Point2::new(bits(1.0), bits(-1.0)));
    assert_eq!(SimpleVertex::default(), SimpleVertex::at(Point3::new(0, 0, 0)));
    assert_eq!(p.to_vec(), Vector3::new(bits(1.0), bits(-1.0), bits(0.5)));
}

#[test]
fn a_mesh_starts_at_the_origin_and_mounts_its_geometry() {
    let red = Vector4::new(bits(1.0), 0, 0, bits(1.0));
    let mut mesh: Mesh<SimpleVertex> = Mesh::new(Geometry::cube(), BasicMaterial::new(red));
    assert_eq!(mesh.transform(), Matrix4::identity());
    assert_eq!(mesh.render(), None);
    assert!(!mesh.needs_refresh());
    mesh.mount();
    assert_eq!(mesh.geometry().vertex_buffer(), Some(VertexBuffer { vertex_count: 36 }));
    assert_eq!(mesh.render(), Some(36));
    mesh.geometry_mut().set_vertices(vec![vertex(0.0, 0.0, 0.0); 3]);
    assert!(mesh.needs_refresh());
    // until the buffer is replaced it holds what it was filled with
    assert_eq!(mesh.render(), Some(36));
    mesh.refresh();
    assert!(!mesh.needs_refresh());
    assert_eq!(mesh.render(), Some(3));
    mesh.unmount();
    assert_eq!(mesh.render(), None);
    *mesh.transform_mut() = Matrix4::from_cols(
        Vector4::new(1, 2, 3, 4),
        Vector4::new(5, 6, 7, 8),
        Vector4::new(9, 10, 11, 12),
        Vector4::new(13, 14, 15, 16),
    );
    assert_eq!(mesh.transform().w, Vector4::new(13, 14, 15, 16));
    mesh.set_material(LineMaterial::new());
    assert_eq!(mesh.material().family(), byd::material::PipelineFamily::Line);
}

#[test]
fn an_object_of_any_kind_gives_the_bytes_of_its_vertices() {
    let mesh: Mesh<SimpleVertex> = Mesh::new(
        Geometry::new(vec![vertex(1.0, 2.0, 3.0)]),
        BasicMaterial::new(Vector4::new(0, 0, 0, 0)),
    );
    let expected = mesh.geometry().vertex_bytes();
    let any = mesh.upcast();
    assert_eq!(any.vertex_bytes(), expected);
    assert_eq!(any.vertex_bytes().len(), 32);
    assert!(Mesh::<PrimitiveVertex>::downcast_ref(&any).is_none());
    assert!(Mesh::<SimpleVertex>::downcast_ref(&any).is_some());
    match Mesh::<PrimitiveVertex>::downcast(any) {
        Err(AnyObject::Mesh(back)) => assert_eq!(back.geometry().vertex_count(), 1),
        _ => panic!("a simple mesh was taken for another kind"),
    }
}

#[test]
fn an_error_keeps_its_text() {
    let error = GeometryError(String::from("no vertices"));
    assert_eq!(error.message(), "no vertices");
}
