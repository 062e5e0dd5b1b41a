//! The pipeline that copies the colour target to the surface: one quad that
//! covers the screen, textured with the target.

use vstd::prelude::*;
use crate::math::{Point3, Scalar, MINUS_ONE, ONE};
use crate::pipelines::{
    BindGroupLayoutEntry, BindingType, FrontFace, Pipeline, PipelineDescriptor, PrimitiveTopology,
    Shader, ShaderStage, TextureFormat,
};
use crate::vertex::{VertexAttribute, VertexBufferLayout, VertexFormat};

verus! {

/// The bits of `0.5`.
pub const HALF: Scalar = 0x3F00_0000;

/// A vertex of the quad: a position and nothing else, three words.
#[derive(Clone, Copy, Debug, PartialEq, Eq, Structural)]
pub struct Vertex {
    pub position: Point3,
}

/// The corners of the two triangles of the quad, at depth one half.
pub const QUAD_VERTICES: [[Scalar; 3]; 6] = [
    [ONE, ONE, HALF],
    [MINUS_ONE, ONE, HALF],
    [ONE, MINUS_ONE, HALF],
    [MINUS_ONE, MINUS_ONE, HALF],
    [ONE, MINUS_ONE, HALF],
    [MINUS_ONE, ONE, HALF],
];

impl Vertex {
    pub fn new(x: Scalar, y: Scalar, z: Scalar) -> (v: Self)
        ensures
            v.position == (Point3 { x, y, z }),
    {
        Vertex { position: Point3 { x, y, z } }
    }

    /// The words of the vertex in buffer order.
    pub open spec fn words(self) -> Seq<u32> {
        self.position.words()
    }

    /// The position at byte 0, twelve bytes in all.
    pub fn buffer_layout() -> (layout: VertexBufferLayout)
        ensures
            layout.packed(),
            layout.array_stride == 12,
            layout.attributes@ == seq![
                VertexAttribute { offset: 0, shader_location: 0, format: VertexFormat::Float32x3 },
            ],
    {
        let mut attributes: Vec<VertexAttribute> = Vec::new();
        attributes.push(
            VertexAttribute { offset: 0, shader_location: 0, format: VertexFormat::Float32x3 },
        );
        assert(attributes@ =~= seq![
            VertexAttribute { offset: 0, shader_location: 0, format: VertexFormat::Float32x3 },
        ]);
        VertexBufferLayout { array_stride: 12, attributes }
    }
}

/// The `i`-th corner of the quad.
pub open spec fn quad_corner(i: int) -> Vertex {
    Vertex {
        position: Point3 { x: QUAD_VERTICES[i][0], y: QUAD_VERTICES[i][1], z: QUAD_VERTICES[i][2] },
    }
}

/// The six vertices of the quad.
pub fn quad_vertices() -> (vertices: Vec<Vertex>)
    ensures
        vertices@ == Seq::new(6, |i: int| quad_corner(i)),
{
    let mut vertices: Vec<Vertex> = Vec::new();
    let mut i: usize = 0;
    while i < 6
        invariant
            i <= 6,
            vertices@ == Seq::new(i as nat, |k: int| quad_corner(k)),
        decreases 6 - i,
    {
        let corner = QUAD_VERTICES[i];
        vertices.push(Vertex::new(corner[0], corner[1], corner[2]));
        assert(vertices@ =~= Seq::new((i + 1) as nat, |k: int| quad_corner(k)));
        i = i + 1;
    }
    vertices
}

/// The words of the quad's vertex buffer: eighteen, corner after corner.
pub fn quad_words() -> (words: Vec<u32>)
    ensures
        words@.len() == 18,
        forall|i: int| 0 <= i < 6 ==> words@.subrange(3 * i, 3 * i + 3) == quad_corner(i).words(),
{
    let vertices = quad_vertices();
    let mut words: Vec<u32> = Vec::new();
    let mut i: usize = 0;
    while i < 6
        invariant
            i <= 6,
            vertices@ == Seq::new(6, |k: int| quad_corner(k)),
            words@.len() == 3 * i,
            forall|k: int|
                0 <= k < i ==> words@.subrange(3 * k, 3 * k + 3) == quad_corner(k).words(),
        decreases 6 - i,
    {
        let ghost before = words@;
        vertices[i].position.push_words(&mut words);
        proof {
            assert forall|k: int| 0 <= k < i + 1 implies words@.subrange(3 * k, 3 * k + 3)
                == quad_corner(k).words() by {
                if k < i {
                    assert(words@.subrange(3 * k, 3 * k + 3) =~= before.subrange(
                        3 * k,
                        3 * k + 3,
                    ));
                } else {
                    assert(words@.subrange(3 * k, 3 * k + 3) =~= quad_corner(k).words());
                }
            }
        }
        i = i + 1;
    }
    words
}

/// The bindings of the quad: the colour target and its sampler, read by the
/// fragment stage.
pub open spec fn quad_entries() -> Seq<BindGroupLayoutEntry> {
    seq![
        BindGroupLayoutEntry {
            binding: 0,
            visibility: ShaderStage::Fragment,
            ty: BindingType::Texture,
        },
        BindGroupLayoutEntry {
            binding: 1,
            visibility: ShaderStage::Fragment,
            ty: BindingType::Sampler,
        },
    ]
}

/// The pipeline that copies the colour target to the surface.
pub struct QuadPipeline {
    descriptor: PipelineDescriptor,
}

impl QuadPipeline {
    /// What the pipeline is created from.
    pub closed spec fn spec_descriptor(&self) -> PipelineDescriptor {
        self.descriptor
    }

    /// Whether a descriptor is the one of this pipeline: counter-clockwise
    /// fronts, backs dropped, no depth test.
    pub open spec fn describes(d: PipelineDescriptor) -> bool {
        &&& d.shader == Shader::Quad
        &&& d.bind_group_layout@ == quad_entries()
        &&& d.texture_bind_group_layout is None
        &&& d.vertex_layout.attributes@ == seq![
            VertexAttribute { offset: 0, shader_location: 0, format: VertexFormat::Float32x3 },
        ]
        &&& d.vertex_layout.array_stride == 12
        &&& d.target_format == TextureFormat::Bgra8UnormSrgb
        &&& d.topology == PrimitiveTopology::TriangleList
        &&& d.front_face == FrontFace::Ccw
        &&& d.cull_back_faces
        &&& d.depth_format is None
    }

    /// The pipeline, ready to be created on a device.
    pub fn new() -> (pipeline: Self)
        ensures
            Self::describes(pipeline.spec_descriptor()),
    {
        let mut entries: Vec<BindGroupLayoutEntry> = Vec::new();
        entries.push(
            BindGroupLayoutEntry {
                binding: 0,
                visibility: ShaderStage::Fragment,
                ty: BindingType::Texture,
            },
        );
        entries.push(
            BindGroupLayoutEntry {
                binding: 1,
                visibility: ShaderStage::Fragment,
                ty: BindingType::Sampler,
            },
        );
        assert(entries@ =~= quad_entries());
        QuadPipeline {
            descriptor: PipelineDescriptor {
                shader: Shader::Quad,
                bind_group_layout: entries,
                texture_bind_group_layout: None,
                vertex_layout: Vertex::buffer_layout(),
                target_format: TextureFormat::Bgra8UnormSrgb,
                topology: PrimitiveTopology::TriangleList,
                front_face: FrontFace::Ccw,
                cull_back_faces: true,
                depth_format: None,
            },
        }
    }

    /// What the pipeline is created from.
    pub fn descriptor(&self) -> (d: &PipelineDescriptor)
        ensures
            *d == self.spec_descriptor(),
    {
        &self.descriptor
    }
}

impl Pipeline for QuadPipeline {
    fn bind_group_layout(&self) -> (entries: &Vec<BindGroupLayoutEntry>)
        ensures
            *entries == self.spec_descriptor().bind_group_layout,
    {
        &self.descriptor.bind_group_layout
    }

    fn texture_bind_group_layout(&self) -> (entries: Option<&Vec<BindGroupLayoutEntry>>)
        ensures
            entries is None,
    {
        None
    }
}

} // verus!
