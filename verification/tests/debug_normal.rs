use byd::debug_normal::DebugNormals;
use byd::geometry::VertexBuffer;
use byd::material::{LineMaterial, MaterialKind};
use byd::math::{Matrix4, Point3};
use byd::mesh::SimpleVertex;

fn ends() -> Vec<(Point3, Point3)> {
    vec![
        (Point3::new(1, 2, 3), Point3::new(4, 5, 6)),
        (Point3::new(7, 8, 9), Point3::new(10, 11, 12)),
        (Point3::new(13, 14, 15), Point3::new(16, 17, 18)),
    ]
}

#[test]
fn new_normals_have_no_lines_and_wait_for_their_buffer() {
    let normals = DebugNormals::new();
    assert_eq!(normals.lines.vertex_count(), 0);
    assert!(normals.dirty);
    assert!(normals.needs_refresh());
    assert_eq!(normals.render(), None);
    assert_eq!(normals.transform(), Matrix4::identity());
    assert_eq!(normals.material(), MaterialKind::Line(LineMaterial::new()));
}

#[test]
fn each_line_is_its_foot_and_its_tip() {
    let mut normals = DebugNormals::new();
    normals.set_vertices(&ends());
    assert_eq!(
        normals.lines.vertices(),
        &[
            SimpleVertex::at(Point3::new(1, 2, 3)),
            SimpleVertex::at(Point3::new(4, 5, 6)),
            SimpleVertex::at(Point3::new(7, 8, 9)),
            SimpleVertex::at(Point3::new(10, 11, 12)),
            SimpleVertex::at(Point3::new(13, 14, 15)),
            SimpleVertex::at(Point3::new(16, 17, 18)),
        ][..]
    );
    assert!(normals.dirty);
}

#[test]
fn mounting_fills_the_buffer_with_two_vertices_to_the_line() {
    let mut normals = DebugNormals::new();
    normals.set_vertices(&ends());
    normals.mount();
    assert!(!normals.dirty);
    assert_eq!(normals.lines.vertex_buffer(), Some(VertexBuffer { vertex_count: 6 }));
    assert_eq!(normals.render(), Some(6));
    normals.set_vertices(&ends()[..1].to_vec());
    assert!(normals.needs_refresh());
    assert_eq!(normals.render(), Some(6));
    normals.refresh();
    assert!(!normals.needs_refresh());
    assert_eq!(normals.render(), Some(2));
    normals.unmount();
    assert_eq!(normals.render(), None);
    assert_eq!(normals.lines.vertex_count(), 2);
}
