//! The built-in pipelines: what they bind where, and the records that their
//! shaders read from the shared uniform buffers.

pub mod line;
pub mod primitive;
pub mod quad;
pub mod simple;

use vstd::prelude::*;
use crate::bytes::{is_memory_of, lemma_memory_len, words_to_bytes};
use crate::math::{Matrix4, Vector4};
use crate::vertex::VertexBufferLayout;

verus! {

/// Where a pipeline's first bind group holds the camera record.
pub const CAMERA_BINDING: u32 = 0;

/// Where a pipeline's first bind group holds the per-object record.
pub const ACTOR_BINDING: u32 = 1;

/// Where a pipeline's second bind group holds the texture-enabled flag.
pub const TEXTURE_ENABLED_BINDING: u32 = 0;

/// Where a pipeline's second bind group holds the texture.
pub const TEXTURE_BINDING: u32 = 1;

/// Where a pipeline's second bind group holds the sampler.
pub const SAMPLER_BINDING: u32 = 2;

/// A record that a shader reads from a uniform buffer. Its layout is stated
/// once, as a sequence of words, and every upload goes through it.
pub trait Uniform {
    /// The words of the record, in the order in which the shader reads them.
    spec fn words(&self) -> Seq<u32>;

    /// The words of the record, in the order in which the shader reads them.
    fn to_words(&self) -> (words: Vec<u32>)
        ensures
            words@ == self.words(),
    ;

    /// The bytes of the record as they are uploaded: its words as they lie in
    /// memory.
    fn as_bytes(&self) -> (bytes: Vec<u8>)
        ensures
            is_memory_of(bytes@, self.words()),
            bytes@.len() == 4 * self.words().len(),
    {
        let words = self.to_words();
        let bytes = words_to_bytes(&words);
        proof {
            lemma_memory_len(bytes@, words@);
        }
        bytes
    }
}

/// What a shader knows of the camera: thirty-two words.
#[derive(Clone, Copy, Debug, PartialEq, Eq, Structural)]
pub struct CameraUniform {
    pub view: Matrix4,
    pub projection: Matrix4,
}

/// What a shader knows of one object: twenty words.
#[derive(Clone, Copy, Debug, PartialEq, Eq, Structural)]
pub struct ActorUniform {
    pub color: Vector4,
    pub model: Matrix4,
}

impl Uniform for CameraUniform {
    /// The view matrix, then the projection matrix.
    open spec fn words(&self) -> Seq<u32> {
        self.view.words() + self.projection.words()
    }

    fn to_words(&self) -> (words: Vec<u32>) {
        let mut words: Vec<u32> = Vec::new();
        self.view.push_words(&mut words);
        self.projection.push_words(&mut words);
        assert(words@ =~= self.words());
        words
    }
}

impl Uniform for ActorUniform {
    /// The colour, then the model matrix.
    open spec fn words(&self) -> Seq<u32> {
        self.color.words() + self.model.words()
    }

    fn to_words(&self) -> (words: Vec<u32>) {
        let mut words: Vec<u32> = Vec::new();
        self.color.push_words(&mut words);
        self.model.push_words(&mut words);
        assert(words@ =~= self.words());
        words
    }
}

/// A camera record is as long as the camera buffer's binding.
pub proof fn lemma_camera_uniform_size(uniform: CameraUniform)
    ensures
        4 * uniform.words().len() == crate::layout::CAMERA_UNIFORM_SIZE,
{
}

/// A per-object record is as long as the per-object buffer's binding.
pub proof fn lemma_actor_uniform_size(uniform: ActorUniform)
    ensures
        4 * uniform.words().len() == crate::layout::ACTOR_UNIFORM_SIZE,
{
}

/// The shader stage that sees a binding.
#[derive(Clone, Copy, Debug, PartialEq, Eq, Structural)]
pub enum ShaderStage {
    Vertex,
    Fragment,
}

/// What a binding holds.
#[derive(Clone, Copy, Debug, PartialEq, Eq, Structural)]
pub enum BindingType {
    /// A uniform buffer, bound at a fixed offset or at one given with each draw.
    Uniform { has_dynamic_offset: bool },
    /// A two-dimensional texture that can be filtered.
    Texture,
    /// A filtering sampler.
    Sampler,
}

/// One binding of a bind group layout.
#[derive(Clone, Copy, Debug, PartialEq, Eq, Structural)]
pub struct BindGroupLayoutEntry {
    pub binding: u32,
    pub visibility: ShaderStage,
    pub ty: BindingType,
}

/// How vertices are assembled.
#[derive(Clone, Copy, Debug, PartialEq, Eq, Structural)]
pub enum PrimitiveTopology {
    TriangleList,
    LineList,
}

/// Which winding is the front of a triangle.
#[derive(Clone, Copy, Debug, PartialEq, Eq, Structural)]
pub enum FrontFace {
    Cw,
    Ccw,
}

/// The format of a colour or depth target.
#[derive(Clone, Copy, Debug, PartialEq, Eq, Structural)]
pub enum TextureFormat {
    Bgra8UnormSrgb,
    Rgba8UnormSrgb,
    Depth32Float,
}

/// The shader that a pipeline runs, by name.
#[derive(Clone, Copy, Debug, PartialEq, Eq, Structural)]
pub enum Shader {
    Simple,
    Primitive,
    Line,
    Quad,
}

/// Everything that a pipeline is created from, but for the shader's text.
#[derive(Debug)]
pub struct PipelineDescriptor {
    pub shader: Shader,
    /// The bind group of the uniform buffers.
    pub bind_group_layout: Vec<BindGroupLayoutEntry>,
    /// The bind group of a texture, where the pipeline draws with one.
    pub texture_bind_group_layout: Option<Vec<BindGroupLayoutEntry>>,
    pub vertex_layout: VertexBufferLayout,
    pub target_format: TextureFormat,
    pub topology: PrimitiveTopology,
    pub front_face: FrontFace,
    /// Whether triangles that show their back are dropped.
    pub cull_back_faces: bool,
    /// The format of the depth target, where the pipeline tests depth: a
    /// fragment is kept, and its depth written, where it is nearer.
    pub depth_format: Option<TextureFormat>,
}

/// What a pipeline tells those that bind to it.
pub trait Pipeline {
    /// The layout of the bind group of the uniform buffers.
    fn bind_group_layout(&self) -> &Vec<BindGroupLayoutEntry>;

    /// The layout of the bind group of a texture, where the pipeline draws
    /// with one.
    fn texture_bind_group_layout(&self) -> Option<&Vec<BindGroupLayoutEntry>>;
}

/// The bindings of the uniform buffers: the camera at a fixed offset, the
/// per-object record at an offset given with each draw, both read by the
/// vertex stage.
pub open spec fn uniform_entries() -> Seq<BindGroupLayoutEntry> {
    seq![
        BindGroupLayoutEntry {
            binding: CAMERA_BINDING,
            visibility: ShaderStage::Vertex,
            ty: BindingType::Uniform { has_dynamic_offset: false },
        },
        BindGroupLayoutEntry {
            binding: ACTOR_BINDING,
            visibility: ShaderStage::Vertex,
            ty: BindingType::Uniform { has_dynamic_offset: true },
        },
    ]
}

/// The bindings of a texture: the texture-enabled flag at an offset given
/// with each draw, the texture and the sampler, all read by the fragment stage.
pub open spec fn texture_entries() -> Seq<BindGroupLayoutEntry> {
    seq![
        BindGroupLayoutEntry {
            binding: TEXTURE_ENABLED_BINDING,
            visibility: ShaderStage::Fragment,
            ty: BindingType::Uniform { has_dynamic_offset: true },
        },
        BindGroupLayoutEntry {
            binding: TEXTURE_BINDING,
            visibility: ShaderStage::Fragment,
            ty: BindingType::Texture,
        },
        BindGroupLayoutEntry {
            binding: SAMPLER_BINDING,
            visibility: ShaderStage::Fragment,
            ty: BindingType::Sampler,
        },
    ]
}

/// How many of the bindings take their offset with each draw.
pub open spec fn dynamic_bindings(entries: Seq<BindGroupLayoutEntry>) -> nat
    decreases entries.len(),
{
    if entries.len() == 0 {
        0
    } else {
        dynamic_bindings(entries.drop_last()) + (if entries.last().ty
            == (BindingType::Uniform { has_dynamic_offset: true }) {
            1nat
        } else {
            0nat
        })
    }
}

/// Each of the two bind groups takes exactly one offset with each draw: the
/// slot of the object, and the slot of the flag.
pub proof fn lemma_one_dynamic_offset_each()
    ensures
        dynamic_bindings(uniform_entries()) == 1,
        dynamic_bindings(texture_entries()) == 1,
{
    reveal_with_fuel(dynamic_bindings, 4);
    let u = uniform_entries();
    assert(u.drop_last() =~= seq![u[0]]);
    assert(u.drop_last().drop_last() =~= Seq::<BindGroupLayoutEntry>::empty());
    let t = texture_entries();
    assert(t.drop_last() =~= seq![t[0], t[1]]);
    assert(t.drop_last().drop_last() =~= seq![t[0]]);
    assert(t.drop_last().drop_last().drop_last() =~= Seq::<BindGroupLayoutEntry>::empty());
}

/// The bindings of the uniform buffers.
pub fn uniform_bind_group_layout() -> (entries: Vec<BindGroupLayoutEntry>)
    ensures
        entries@ == uniform_entries(),
{
    let mut entries: Vec<BindGroupLayoutEntry> = Vec::new();
    entries.push(
        BindGroupLayoutEntry {
            binding: CAMERA_BINDING,
            visibility: ShaderStage::Vertex,
            ty: BindingType::Uniform { has_dynamic_offset: false },
        },
    );
    entries.push(
        BindGroupLayoutEntry {
            binding: ACTOR_BINDING,
            visibility: ShaderStage::Vertex,
            ty: BindingType::Uniform { has_dynamic_offset: true },
        },
    );
    assert(entries@ =~= uniform_entries());
    entries
}

/// The bindings of a texture.
pub fn texture_bind_group_layout() -> (entries: Vec<BindGroupLayoutEntry>)
    ensures
        entries@ == texture_entries(),
{
    let mut entries: Vec<BindGroupLayoutEntry> = Vec::new();
    entries.push(
        BindGroupLayoutEntry {
            binding: TEXTURE_ENABLED_BINDING,
            visibility: ShaderStage::Fragment,
            ty: BindingType::Uniform { has_dynamic_offset: true },
        },
    );
    entries.push(
        BindGroupLayoutEntry {
            binding: TEXTURE_BINDING,
            visibility: ShaderStage::Fragment,
            ty: BindingType::Texture,
        },
    );
    entries.push(
        BindGroupLayoutEntry {
            binding: SAMPLER_BINDING,
            visibility: ShaderStage::Fragment,
            ty: BindingType::Sampler,
        },
    );
    assert(entries@ =~= texture_entries());
    entries
}

} // verus!
