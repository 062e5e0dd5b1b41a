//! Vertex formats: what one vertex holds, how its words lie in a vertex
//! buffer, and how a pipeline is told about that.

use vstd::prelude::*;
use crate::math::Point3;

verus! {

/// The shape of one vertex attribute.
#[derive(Clone, Copy, Debug, PartialEq, Eq, Structural)]
pub enum VertexFormat {
    /// Two single-precision numbers.
    Float32x2,
    /// Three single-precision numbers.
    Float32x3,
    /// Four single-precision numbers.
    Float32x4,
}

impl VertexFormat {
    /// The bytes that an attribute of this format takes.
    pub open spec fn spec_size(self) -> u64 {
        match self {
            VertexFormat::Float32x2 => 8,
            VertexFormat::Float32x3 => 12,
            VertexFormat::Float32x4 => 16,
        }
    }

    #[verifier::when_used_as_spec(spec_size)]
    pub fn size(self) -> (n: u64)
        ensures
            n == self.spec_size(),
    {
        match self {
            VertexFormat::Float32x2 => 8,
            VertexFormat::Float32x3 => 12,
            VertexFormat::Float32x4 => 16,
        }
    }
}

/// One attribute of a vertex: where it starts, where the shader finds it, and
/// its shape.
#[derive(Clone, Copy, Debug, PartialEq, Eq, Structural)]
pub struct VertexAttribute {
    pub offset: u64,
    pub shader_location: u32,
    pub format: VertexFormat,
}

impl VertexAttribute {
    /// The first byte after the attribute.
    pub open spec fn end(self) -> int {
        self.offset + self.format.spec_size()
    }
}

/// How the vertices of one format lie in a buffer: the distance from one vertex
/// to the next, and the attributes of each. The buffer advances once per vertex.
#[derive(Debug)]
pub struct VertexBufferLayout {
    pub array_stride: u64,
    pub attributes: Vec<VertexAttribute>,
}

impl VertexBufferLayout {
    /// The attributes follow one another without overlap, each at the shader
    /// location of its rank, and the last ends within the stride.
    pub open spec fn packed(self) -> bool {
        &&& forall|i: int|
            0 <= i < self.attributes@.len() ==> (#[trigger] self.attributes@[i]).shader_location
                == i
        &&& forall|i: int|
            0 <= i < self.attributes@.len() ==> (#[trigger] self.attributes@[i]).end()
                <= self.array_stride
        &&& forall|i: int, j: int|
            0 <= i < j < self.attributes@.len() ==> (#[trigger] self.attributes@[i]).end() <= (
            #[trigger] self.attributes@[j]).offset
    }
}

/// A vertex format. A vertex is a fixed number of words, and knows the layout
/// that tells a pipeline how to read them.
pub trait Vertex: Copy {
    /// How many words one vertex takes in a buffer.
    spec fn stride_words() -> nat;

    /// The words of this vertex in buffer order.
    spec fn words(&self) -> Seq<u32>;

    /// The vertex that stands at `position` and knows nothing else.
    spec fn spec_from_position(position: Point3) -> Self;

    /// The attributes of a vertex, in the order in which they lie.
    spec fn attributes() -> Seq<VertexAttribute>;

    /// Every vertex has as many words as the format says.
    proof fn lemma_words_len(&self)
        ensures
            self.words().len() == Self::stride_words(),
    ;

    /// Appends the words of this vertex to `out`.
    fn push_words(&self, out: &mut Vec<u32>)
        ensures
            final(out)@ == old(out)@ + self.words(),
    ;

    /// The vertex that stands at `position` and knows nothing else.
    fn from_position(position: Point3) -> (v: Self)
        ensures
            v == Self::spec_from_position(position),
    ;

    /// The layout of a buffer of such vertices: the attributes of the
    /// format, packed, and a stride of four bytes to the word.
    fn buffer_layout() -> (layout: VertexBufferLayout)
        ensures
            layout.attributes@ == Self::attributes(),
            layout.packed(),
            layout.array_stride == 4 * Self::stride_words(),
    ;
}

/// The words of a sequence of vertices, vertex after vertex.
pub open spec fn vertex_words<V: Vertex>(vertices: Seq<V>) -> Seq<u32>
    decreases vertices.len(),
{
    if vertices.len() == 0 {
        Seq::empty()
    } else {
        vertex_words(vertices.drop_last()) + vertices.last().words()
    }
}

/// A buffer of vertices holds the stride's worth of words for each.
pub proof fn lemma_vertex_words_len<V: Vertex>(vertices: Seq<V>)
    ensures
        vertex_words(vertices).len() == vertices.len() * V::stride_words(),
    decreases vertices.len(),
{
    if vertices.len() > 0 {
        lemma_vertex_words_len(vertices.drop_last());
        vertices.last().lemma_words_len();
        assert(vertices.len() * V::stride_words() == (vertices.len() - 1) * V::stride_words()
            + V::stride_words()) by (nonlinear_arith);
    }
}

/// Collects the words of `vertices`, vertex after vertex.
pub fn collect_words<V: Vertex>(vertices: &Vec<V>) -> (out: Vec<u32>)
    ensures
        out@ == vertex_words(vertices@),
{
    let mut out: Vec<u32> = Vec::new();
    let mut i: usize = 0;
    while i < vertices.len()
        invariant
            i <= vertices.len(),
            out@ == vertex_words(vertices@.take(i as int)),
        decreases vertices.len() - i,
    {
        vertices[i].push_words(&mut out);
        proof {
            let next = vertices@.take(i + 1);
            assert(next.drop_last() =~= vertices@.take(i as int));
            assert(next.last() == vertices@[i as int]);
        }
        i = i + 1;
    }
    assert(vertices@.take(i as int) =~= vertices@);
    out
}

} // verus!
