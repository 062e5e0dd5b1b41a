use byd::bytes::{halves_from_bytes, words_from_bytes};
use byd::gltf::parse::{
    AccessorDoc, AssetDoc, AttributeDoc, BufferViewDoc, ByteRange, GltfDoc, NodeDoc, PrimitiveDoc,
    SceneDoc, TextureDoc,
};
use byd::gltf::walk::Visit;
use byd::gltf::{
    assemble_vertices, default_indices, indices_from_bytes, points_from_bytes, points_from_words,
    texcoords_from_bytes, texcoords_from_words, vectors_from_bytes, vectors_from_words, GltfError,
    PrimitiveVertex,
};
use byd::math::{Matrix4, Point2, Point3, Vector3, Vector4};

fn accessor(buffer_view: u64, byte_offset: u64) -> AccessorDoc {
    AccessorDoc { buffer_view, byte_offset, component_type: 5126, count: 3, ty: "VEC3".into() }
}

fn view(buffer: u64, byte_offset: u64, byte_length: u64) -> BufferViewDoc {
    BufferViewDoc { buffer, byte_length, byte_offset, byte_stride: None, target: None }
}

fn document(accessors: Vec<AccessorDoc>, buffer_views: Vec<BufferViewDoc>) -> GltfDoc {
    GltfDoc {
        uri: "models/box.gltf".into(),
        asset: AssetDoc { generator: String::new(), version: "2.0".into() },
        extensions_used: Vec::new(),
        extensions_required: Vec::new(),
        scene: 0,
        scenes: Vec::new(),
        nodes: Vec::new(),
        materials: Vec::new(),
        meshes: Vec::new(),
        textures: vec![TextureDoc { sampler: 0, source: 4 }, TextureDoc { sampler: 0, source: 2 }],
        images: Vec::new(),
        accessors,
        buffer_views,
        samplers: Vec::new(),
        buffers: Vec::new(),
    }
}

#[test]
fn an_accessor_lies_where_its_view_and_its_offset_say() {
    let doc = document(
        vec![accessor(1, 8), accessor(0, 0)],
        vec![view(0, 0, 36), view(3, 100, 24)],
    );
    assert_eq!(doc.accessor_range(0), Some(ByteRange { buffer: 3, start: 108, end: 132 }));
    assert_eq!(doc.accessor_range(1), Some(ByteRange { buffer: 0, start: 0, end: 36 }));
}

#[test]
fn an_accessor_that_is_not_there_lies_nowhere() {
    let doc = document(vec![accessor(2, 0)], vec![view(0, 0, 36)]);
    assert_eq!(doc.accessor_range(1), None);
    assert_eq!(doc.accessor_range(u64::MAX), None);
    // the accessor is there, its view is not
    assert_eq!(doc.accessor_range(0), None);
}

#[test]
fn an_accessor_beyond_64_bits_lies_nowhere() {
    let doc = document(
        vec![accessor(0, u64::MAX), accessor(1, 0), accessor(1, 1)],
        vec![view(0, 1, 0), view(0, u64::MAX - 10, 10)],
    );
    assert_eq!(doc.accessor_range(0), None);
    assert_eq!(
        doc.accessor_range(1),
        Some(ByteRange { buffer: 0, start: u64::MAX - 10, end: u64::MAX })
    );
    assert_eq!(doc.accessor_range(2), None);
}

#[test]
fn a_material_is_textured_with_the_source_of_its_texture() {
    let doc = document(Vec::new(), Vec::new());
    assert_eq!(doc.texture_of(0), Some(4));
    assert_eq!(doc.texture_of(1), Some(2));
    assert_eq!(doc.texture_of(2), None);
}

#[test]
fn an_attribute_is_found_by_its_name() {
    let primitive = PrimitiveDoc {
        attributes: vec![
            AttributeDoc { name: "NORMAL".into(), accessor: 2 },
            AttributeDoc { name: "POSITION".into(), accessor: 1 },
            AttributeDoc { name: "POSITION".into(), accessor: 9 },
        ],
        indices: None,
        material: 0,
    };
    assert_eq!(primitive.attribute(&"POSITION".to_string()), Some(1));
    assert_eq!(primitive.attribute(&"NORMAL".to_string()), Some(2));
    assert_eq!(primitive.attribute(&"TEXCOORD_0".to_string()), None);
    assert_eq!(primitive.attribute(&"position".to_string()), None);
}

#[test]
fn a_node_is_placed_by_its_translation_before_its_matrix() {
    let one = 1.0f32.to_bits();
    let matrix: [u32; 16] = [1, 2, 3, 4, 5, 6, 7, 8, 9, 10, 11, 12, 13, 14, 15, 16];
    let mut node = NodeDoc {
        name: String::new(),
        mesh: None,
        children: None,
        translation: None,
        matrix: None,
    };
    assert_eq!(node.placement(), Matrix4::identity());
    node.matrix = Some(matrix);
    assert_eq!(
        node.placement(),
        Matrix4::from_cols(
            Vector4::new(1, 2, 3, 4),
            Vector4::new(5, 6, 7, 8),
            Vector4::new(9, 10, 11, 12),
            Vector4::new(13, 14, 15, 16),
        )
    );
    node.translation = Some((7, 8, 9));
    let placed = node.placement();
    assert_eq!(placed.w, Vector4::new(7, 8, 9, one));
    assert_eq!(placed.x, Vector4::new(one, 0, 0, 0));
    assert_eq!(placed.y, Vector4::new(0, one, 0, 0));
    assert_eq!(placed.z, Vector4::new(0, 0, one, 0));
}

#[test]
fn words_are_read_from_memory_four_bytes_at_a_time() {
    let words = [1.0f32.to_bits(), 0xDEADBEEF, 0, 7];
    let bytes: Vec<u8> = words.iter().flat_map(|w| w.to_ne_bytes()).collect();
    assert_eq!(words_from_bytes(&bytes), Some(words.to_vec()));
    assert_eq!(words_from_bytes(&bytes[..8]), Some(words[..2].to_vec()));
    assert_eq!(words_from_bytes(&bytes[..7]), None);
    assert_eq!(words_from_bytes(&[]), Some(Vec::new()));
    // reading does not depend on where the bytes start
    let mut shifted = vec![0u8];
    shifted.extend_from_slice(&bytes);
    assert_eq!(words_from_bytes(&shifted[1..]), Some(words.to_vec()));
}

#[test]
fn indices_are_read_from_memory_two_bytes_at_a_time() {
    let indices = [0u16, 1, 2, 0xABCD];
    let bytes: Vec<u8> = indices.iter().flat_map(|i| i.to_ne_bytes()).collect();
    assert_eq!(indices_from_bytes(&bytes), Some(indices.to_vec()));
    assert_eq!(halves_from_bytes(&bytes[..2]), Some(vec![0]));
    assert_eq!(indices_from_bytes(&bytes[..3]), None);
}

#[test]
fn points_come_in_threes_and_texture_coordinates_in_pairs() {
    let words: Vec<u32> = (1..=6).collect();
    assert_eq!(
        points_from_words(&words),
        Some(vec![Point3::new(1, 2, 3), Point3::new(4, 5, 6)])
    );
    assert_eq!(
        vectors_from_words(&words),
        Some(vec![Vector3::new(1, 2, 3), Vector3::new(4, 5, 6)])
    );
    assert_eq!(
        texcoords_from_words(&words),
        Some(vec![Point2::new(1, 2), Point2::new(3, 4), Point2::new(5, 6)])
    );
    assert_eq!(points_from_words(&words[..5].to_vec()), None);
    assert_eq!(vectors_from_words(&words[..4].to_vec()), None);
    assert_eq!(texcoords_from_words(&words[..5].to_vec()), None);
    assert_eq!(points_from_words(&Vec::new()), Some(Vec::new()));
}

#[test]
fn points_are_read_from_the_bytes_of_a_buffer() {
    let numbers = [1.0f32, 2.0, 3.0, -1.5, 0.0, 8.25];
    let bytes: Vec<u8> = numbers.iter().flat_map(|x| x.to_ne_bytes()).collect();
    let p = |x: f32, y: f32, z: f32| Point3::new(x.to_bits(), y.to_bits(), z.to_bits());
    assert_eq!(points_from_bytes(&bytes), Some(vec![p(1.0, 2.0, 3.0), p(-1.5, 0.0, 8.25)]));
    assert_eq!(
        vectors_from_bytes(&bytes[..12]),
        Some(vec![Vector3::new(1.0f32.to_bits(), 2.0f32.to_bits(), 3.0f32.to_bits())])
    );
    assert_eq!(
        texcoords_from_bytes(&bytes[..8]),
        Some(vec![Point2::new(1.0f32.to_bits(), 2.0f32.to_bits())])
    );
    assert_eq!(points_from_bytes(&bytes[..20]), None);
    assert_eq!(points_from_bytes(&bytes[..23]), None);
    assert_eq!(texcoords_from_bytes(&bytes[..12]), None);
}

#[test]
fn a_primitive_without_indices_names_each_vertex_once() {
    assert_eq!(default_indices(0), Vec::<u16>::new());
    assert_eq!(default_indices(4), vec![0, 1, 2, 3]);
    assert_eq!(default_indices(65535).len(), 65535);
    assert_eq!(default_indices(65536), Vec::<u16>::new());
    assert_eq!(default_indices(65538), vec![0, 1]);
}

#[test]
fn vertices_are_assembled_in_the_order_of_the_indices() {
    let positions = vec![Point3::new(1, 1, 1), Point3::new(2, 2, 2), Point3::new(3, 3, 3)];
    let normals = vec![Vector3::new(10, 10, 10), Vector3::new(20, 20, 20)];
    let texcoords = vec![Point2::new(100, 100)];
    let vertices = assemble_vertices(&positions, &normals, &texcoords, &vec![2, 0, 1, 0]).unwrap();
    assert_eq!(
        vertices,
        vec![
            PrimitiveVertex::new(Point3::new(3, 3, 3), Vector3::new(0, 0, 0), Point2::new(0, 0)),
            PrimitiveVertex::new(
                Point3::new(1, 1, 1),
                Vector3::new(10, 10, 10),
                Point2::new(100, 100)
            ),
            PrimitiveVertex::new(Point3::new(2, 2, 2), Vector3::new(20, 20, 20), Point2::new(0, 0)),
            PrimitiveVertex::new(
                Point3::new(1, 1, 1),
                Vector3::new(10, 10, 10),
                Point2::new(100, 100)
            ),
        ]
    );
    assert_eq!(PrimitiveVertex::default(), PrimitiveVertex::new(
        Point3::new(0, 0, 0),
        Vector3::new(0, 0, 0),
        Point2::new(0, 0)
    ));
}

#[test]
fn an_index_without_a_position_assembles_nothing() {
    let positions = vec![Point3::new(1, 1, 1)];
    assert_eq!(assemble_vertices(&positions, &Vec::new(), &Vec::new(), &vec![0, 1]), None);
    assert_eq!(assemble_vertices(&Vec::new(), &Vec::new(), &Vec::new(), &vec![0]), None);
    assert_eq!(
        assemble_vertices(&Vec::new(), &Vec::new(), &Vec::new(), &Vec::new()),
        Some(Vec::new())
    );
}

#[test]
fn an_error_says_what_it_is() {
    assert_eq!(GltfError::FileNotFound.describe(), "File not found");
    assert_eq!(GltfError::Unknown("disk on fire".into()).describe(), "Unknown error");
}

fn node(mesh: Option<u64>, children: Option<Vec<u64>>) -> NodeDoc {
    NodeDoc { name: String::new(), mesh, children, translation: None, matrix: None }
}

fn tree(nodes: Vec<NodeDoc>, scenes: Vec<Vec<u64>>) -> GltfDoc {
    let mut doc = document(Vec::new(), Vec::new());
    doc.nodes = nodes;
    doc.scenes =
        scenes.into_iter().map(|nodes| SceneDoc { name: String::new(), nodes }).collect();
    doc
}

#[test]
fn the_walk_enters_shows_descends_and_leaves() {
    // 0 ── 1 (mesh 7) ── 3 (mesh 9)
    //  └── 2
    let doc = tree(
        vec![
            node(None, Some(vec![1, 2])),
            node(Some(7), Some(vec![3])),
            node(None, Some(vec![])),
            node(Some(9), None),
        ],
        vec![vec![0]],
    );
    assert_eq!(doc.roots(), vec![0]);
    assert_eq!(
        doc.traversal(),
        Some(vec![
            Visit::Enter(0),
            Visit::Enter(1),
            Visit::Mesh(7),
            Visit::Enter(3),
            Visit::Mesh(9),
            Visit::Leave,
            Visit::Leave,
            Visit::Enter(2),
            Visit::Leave,
            Visit::Leave,
        ])
    );
}

#[test]
fn the_walk_goes_through_the_roots_of_every_scene_in_order() {
    let doc = tree(
        vec![node(Some(1), None), node(Some(2), None), node(Some(3), None)],
        vec![vec![2, 0], vec![], vec![1, 2]],
    );
    assert_eq!(doc.roots(), vec![2, 0, 1, 2]);
    let meshes: Vec<u64> = doc
        .traversal()
        .unwrap()
        .into_iter()
        .filter_map(|v| match v {
            Visit::Mesh(m) => Some(m),
            _ => None,
        })
        .collect();
    assert_eq!(meshes, vec![3, 1, 2, 3]);
}

#[test]
fn a_document_without_scenes_has_an_empty_walk() {
    let doc = tree(vec![node(Some(1), None)], vec![]);
    assert_eq!(doc.traversal(), Some(Vec::new()));
    let empty = tree(Vec::new(), vec![vec![]]);
    assert_eq!(empty.traversal(), Some(Vec::new()));
}

#[test]
fn nodes_that_go_in_circles_have_no_walk() {
    let own_child = tree(vec![node(None, Some(vec![0]))], vec![vec![0]]);
    assert_eq!(own_child.traversal(), None);
    let ring = tree(
        vec![node(None, Some(vec![1])), node(None, Some(vec![2])), node(None, Some(vec![0]))],
        vec![vec![1]],
    );
    assert_eq!(ring.traversal(), None);
    // a chain as deep as the document has nodes is no circle
    let chain = tree(
        vec![node(None, Some(vec![1])), node(None, Some(vec![2])), node(Some(5), None)],
        vec![vec![0]],
    );
    assert_eq!(chain.traversal().unwrap().len(), 7);
}

#[test]
fn an_index_that_names_no_node_has_no_walk() {
    let root = tree(vec![node(None, None)], vec![vec![1]]);
    assert_eq!(root.traversal(), None);
    let child = tree(vec![node(None, Some(vec![0, 5]))], vec![vec![0]]);
    assert_eq!(child.traversal(), None);
    let later = tree(vec![node(None, None)], vec![vec![0], vec![0, 9]]);
    assert_eq!(later.traversal(), None);
}

#[test]
fn a_node_that_is_shared_is_walked_through_each_time() {
    // 0 and 1 both hold 2
    let doc = tree(
        vec![node(None, Some(vec![2])), node(None, Some(vec![2])), node(Some(4), None)],
        vec![vec![0, 1]],
    );
    assert_eq!(
        doc.traversal(),
        Some(vec![
            Visit::Enter(0),
            Visit::Enter(2),
            Visit::Mesh(4),
            Visit::Leave,
            Visit::Leave,
            Visit::Enter(1),
            Visit::Enter(2),
            Visit::Mesh(4),
            Visit::Leave,
            Visit::Leave,
        ])
    );
}

#[test]
fn every_node_that_is_entered_is_left_again() {
    let doc = tree(
        vec![
            node(Some(0), Some(vec![1, 2, 3])),
            node(None, Some(vec![4])),
            node(Some(1), None),
            node(None, Some(vec![4, 4])),
            node(Some(2), Some(vec![])),
        ],
        vec![vec![0], vec![3]],
    );
    let walk = doc.traversal().unwrap();
    let mut level = 0i64;
    for visit in &walk {
        match visit {
            Visit::Enter(node) => {
                assert!((*node as usize) < doc.nodes.len());
                level += 1;
            }
            Visit::Mesh(_) => assert!(level >= 1),
            Visit::Leave => {
                level -= 1;
                assert!(level >= 0);
            }
        }
    }
    assert_eq!(level, 0);
    assert_eq!(walk.iter().filter(|v| matches!(v, Visit::Enter(_))).count(), 10);
}
