//! Scenes from glTF documents: the vertex format of their primitives, and the
//! arithmetic of finding a primitive's data in the document's buffers.

pub mod parse;
pub mod walk;

use vstd::prelude::*;
use crate::bytes::{halves_from_bytes, holds_halves, holds_words, words_from_bytes};
use crate::math::{Point2, Point3, Vector3, ZERO};
use crate::vertex::{Vertex, VertexAttribute, VertexBufferLayout, VertexFormat};

verus! {

/// Why a glTF document could not be loaded.
#[derive(Debug)]
pub enum GltfError {
    /// There is no such file.
    FileNotFound,
    /// Anything else; the text says what.
    Unknown(String),
}

impl GltfError {
    /// The error in a few words.
    pub fn describe(&self) -> (text: &'static str)
        ensures
            text@ == (match self {
                GltfError::FileNotFound => "File not found"@,
                GltfError::Unknown(_) => "Unknown error"@,
            }),
    {
        match self {
            GltfError::FileNotFound => "File not found",
            GltfError::Unknown(_) => "Unknown error",
        }
    }
}

/// A vertex of a glTF primitive: position, normal and first texture
/// coordinate, eight words.
#[derive(Clone, Copy, Debug, PartialEq, Eq, Structural)]
pub struct PrimitiveVertex {
    position: Point3,
    normal: Vector3,
    texcoord: Point2,
}

impl PrimitiveVertex {
    pub closed spec fn spec_position(self) -> Point3 {
        self.position
    }

    pub closed spec fn spec_normal(self) -> Vector3 {
        self.normal
    }

    pub closed spec fn spec_texcoord(self) -> Point2 {
        self.texcoord
    }

    /// The vertex with the given parts.
    pub closed spec fn spec_new(position: Point3, normal: Vector3, texcoord: Point2) -> Self {
        PrimitiveVertex { position, normal, texcoord }
    }

    /// The parts of a new vertex are those it was made of.
    pub proof fn lemma_new(position: Point3, normal: Vector3, texcoord: Point2)
        ensures
            Self::spec_new(position, normal, texcoord).spec_position() == position,
            Self::spec_new(position, normal, texcoord).spec_normal() == normal,
            Self::spec_new(position, normal, texcoord).spec_texcoord() == texcoord,
    {
    }

    /// The vertex with the given parts.
    #[verifier::when_used_as_spec(spec_new)]
    pub fn new(position: Point3, normal: Vector3, texcoord: Point2) -> (v: Self)
        ensures
            v == Self::spec_new(position, normal, texcoord),
            v.spec_position() == position,
            v.spec_normal() == normal,
            v.spec_texcoord() == texcoord,
    {
        proof {
            Self::lemma_new(position, normal, texcoord);
        }
        PrimitiveVertex { position, normal, texcoord }
    }

    #[verifier::when_used_as_spec(spec_position)]
    pub fn position(self) -> (p: Point3)
        ensures
            p == self.spec_position(),
    {
        self.position
    }

    #[verifier::when_used_as_spec(spec_normal)]
    pub fn normal(self) -> (n: Vector3)
        ensures
            n == self.spec_normal(),
    {
        self.normal
    }

    #[verifier::when_used_as_spec(spec_texcoord)]
    pub fn texcoord(self) -> (t: Point2)
        ensures
            t == self.spec_texcoord(),
    {
        self.texcoord
    }
}

impl Default for PrimitiveVertex {
    /// The vertex at the origin with nothing set.
    fn default() -> (v: Self)
        ensures
            v == PrimitiveVertex::spec_new(
                Point3 { x: ZERO, y: ZERO, z: ZERO },
                Vector3 { x: ZERO, y: ZERO, z: ZERO },
                Point2 { x: ZERO, y: ZERO },
            ),
    {
        PrimitiveVertex {
            position: Point3 { x: ZERO, y: ZERO, z: ZERO },
            normal: Vector3 { x: ZERO, y: ZERO, z: ZERO },
            texcoord: Point2 { x: ZERO, y: ZERO },
        }
    }
}

impl Vertex for PrimitiveVertex {
    open spec fn stride_words() -> nat {
        8
    }

    open spec fn words(&self) -> Seq<u32> {
        self.spec_position().words() + self.spec_normal().words() + self.spec_texcoord().words()
    }

    /// Only the position is set.
    open spec fn spec_from_position(position: Point3) -> Self {
        PrimitiveVertex::spec_new(
            position,
            Vector3 { x: ZERO, y: ZERO, z: ZERO },
            Point2 { x: ZERO, y: ZERO },
        )
    }

    /// Position at byte 0, normal at byte 12, texture coordinate at byte 24.
    open spec fn attributes() -> Seq<VertexAttribute> {
        seq![
            VertexAttribute { offset: 0, shader_location: 0, format: VertexFormat::Float32x3 },
            VertexAttribute { offset: 12, shader_location: 1, format: VertexFormat::Float32x3 },
            VertexAttribute { offset: 24, shader_location: 2, format: VertexFormat::Float32x2 },
        ]
    }

    proof fn lemma_words_len(&self) {
    }

    fn push_words(&self, out: &mut Vec<u32>) {
        self.position.push_words(out);
        self.normal.push_words(out);
        self.texcoord.push_words(out);
        assert(out@ =~= old(out)@ + self.words());
    }

    fn from_position(position: Point3) -> (v: Self) {
        PrimitiveVertex {
            position,
            normal: Vector3 { x: ZERO, y: ZERO, z: ZERO },
            texcoord: Point2 { x: ZERO, y: ZERO },
        }
    }

    /// Position at byte 0, normal at byte 12, texture coordinate at byte 24,
    /// thirty-two bytes in all.
    fn buffer_layout() -> (layout: VertexBufferLayout) {
        let mut attributes: Vec<VertexAttribute> = Vec::new();
        attributes.push(
            VertexAttribute { offset: 0, shader_location: 0, format: VertexFormat::Float32x3 },
        );
        attributes.push(
            VertexAttribute { offset: 12, shader_location: 1, format: VertexFormat::Float32x3 },
        );
        attributes.push(
            VertexAttribute { offset: 24, shader_location: 2, format: VertexFormat::Float32x2 },
        );
        assert(attributes@ =~= Self::attributes());
        VertexBufferLayout { array_stride: 32, attributes }
    }
}

/// The points whose coordinates are the given words, three to the point.
pub open spec fn spec_points(words: Seq<u32>) -> Seq<Point3> {
    Seq::new(
        words.len() / 3,
        |i: int| Point3 { x: words[3 * i], y: words[3 * i + 1], z: words[3 * i + 2] },
    )
}

/// The directions whose components are the given words, three to the direction.
pub open spec fn spec_vectors(words: Seq<u32>) -> Seq<Vector3> {
    Seq::new(
        words.len() / 3,
        |i: int| Vector3 { x: words[3 * i], y: words[3 * i + 1], z: words[3 * i + 2] },
    )
}

/// The texture coordinates that are the given words, two to the coordinate.
pub open spec fn spec_texcoords(words: Seq<u32>) -> Seq<Point2> {
    Seq::new(words.len() / 2, |i: int| Point2 { x: words[2 * i], y: words[2 * i + 1] })
}

/// The points whose coordinates are the given words; `None` where the words
/// do not come in threes.
pub fn points_from_words(words: &Vec<u32>) -> (r: Option<Vec<Point3>>)
    ensures
        r is Some <==> words@.len() % 3 == 0,
        r matches Some(points) ==> points@ == spec_points(words@),
{
    if words.len() % 3 != 0 {
        return None;
    }
    let count = words.len() / 3;
    let mut points: Vec<Point3> = Vec::new();
    let mut i: usize = 0;
    while i < count
        invariant
            i <= count,
            count * 3 == words@.len(),
            count * 3 <= usize::MAX,
            count == words@.len() / 3,
            points@ == spec_points(words@).take(i as int),
        decreases count - i,
    {
        points.push(Point3 { x: words[3 * i], y: words[3 * i + 1], z: words[3 * i + 2] });
        assert(points@ =~= spec_points(words@).take(i + 1));
        i = i + 1;
    }
    assert(spec_points(words@).take(i as int) =~= spec_points(words@));
    Some(points)
}

/// The directions whose components are the given words; `None` where the
/// words do not come in threes.
pub fn vectors_from_words(words: &Vec<u32>) -> (r: Option<Vec<Vector3>>)
    ensures
        r is Some <==> words@.len() % 3 == 0,
        r matches Some(vectors) ==> vectors@ == spec_vectors(words@),
{
    if words.len() % 3 != 0 {
        return None;
    }
    let count = words.len() / 3;
    let mut vectors: Vec<Vector3> = Vec::new();
    let mut i: usize = 0;
    while i < count
        invariant
            i <= count,
            count * 3 == words@.len(),
            count * 3 <= usize::MAX,
            count == words@.len() / 3,
            vectors@ == spec_vectors(words@).take(i as int),
        decreases count - i,
    {
        vectors.push(Vector3 { x: words[3 * i], y: words[3 * i + 1], z: words[3 * i + 2] });
        assert(vectors@ =~= spec_vectors(words@).take(i + 1));
        i = i + 1;
    }
    assert(spec_vectors(words@).take(i as int) =~= spec_vectors(words@));
    Some(vectors)
}

/// The texture coordinates that are the given words; `None` where the words
/// do not come in pairs.
pub fn texcoords_from_words(words: &Vec<u32>) -> (r: Option<Vec<Point2>>)
    ensures
        r is Some <==> words@.len() % 2 == 0,
        r matches Some(texcoords) ==> texcoords@ == spec_texcoords(words@),
{
    if words.len() % 2 != 0 {
        return None;
    }
    let count = words.len() / 2;
    let mut texcoords: Vec<Point2> = Vec::new();
    let mut i: usize = 0;
    while i < count
        invariant
            i <= count,
            count * 2 == words@.len(),
            count * 2 <= usize::MAX,
            count == words@.len() / 2,
            texcoords@ == spec_texcoords(words@).take(i as int),
        decreases count - i,
    {
        texcoords.push(Point2 { x: words[2 * i], y: words[2 * i + 1] });
        assert(texcoords@ =~= spec_texcoords(words@).take(i + 1));
        i = i + 1;
    }
    assert(spec_texcoords(words@).take(i as int) =~= spec_texcoords(words@));
    Some(texcoords)
}

/// The points that lie in memory as the given bytes, twelve bytes to the
/// point; `None` where the bytes are no whole number of points.
pub fn points_from_bytes(bytes: &[u8]) -> (r: Option<Vec<Point3>>)
    ensures
        r is Some <==> bytes@.len() % 12 == 0,
        r matches Some(points) ==> exists|words: Seq<u32>|
            holds_words(bytes@, words) && points@ == spec_points(words),
{
    match words_from_bytes(bytes) {
        Some(words) => {
            let r = points_from_words(&words);
            assert(r is Some ==> holds_words(bytes@, words@));
            r
        },
        None => None,
    }
}

/// The directions that lie in memory as the given bytes, twelve bytes to the
/// direction; `None` where the bytes are no whole number of directions.
pub fn vectors_from_bytes(bytes: &[u8]) -> (r: Option<Vec<Vector3>>)
    ensures
        r is Some <==> bytes@.len() % 12 == 0,
        r matches Some(vectors) ==> exists|words: Seq<u32>|
            holds_words(bytes@, words) && vectors@ == spec_vectors(words),
{
    match words_from_bytes(bytes) {
        Some(words) => {
            let r = vectors_from_words(&words);
            assert(r is Some ==> holds_words(bytes@, words@));
            r
        },
        None => None,
    }
}

/// The texture coordinates that lie in memory as the given bytes, eight bytes
/// to the coordinate; `None` where the bytes are no whole number of them.
pub fn texcoords_from_bytes(bytes: &[u8]) -> (r: Option<Vec<Point2>>)
    ensures
        r is Some <==> bytes@.len() % 8 == 0,
        r matches Some(texcoords) ==> exists|words: Seq<u32>|
            holds_words(bytes@, words) && texcoords@ == spec_texcoords(words),
{
    match words_from_bytes(bytes) {
        Some(words) => {
            let r = texcoords_from_words(&words);
            assert(r is Some ==> holds_words(bytes@, words@));
            r
        },
        None => None,
    }
}

/// The indices of a primitive that names none: each vertex once, in order.
/// An index has sixteen bits, and the count is taken modulo `2^16`.
pub fn default_indices(count: usize) -> (indices: Vec<u16>)
    ensures
        indices@ == Seq::new((count % 0x1_0000) as nat, |i: int| i as u16),
{
    let n: u16 = (count % 0x1_0000) as u16;
    let mut indices: Vec<u16> = Vec::new();
    let mut i: u16 = 0;
    while i < n
        invariant
            i <= n,
            indices@ == Seq::new(i as nat, |k: int| k as u16),
        decreases n - i,
    {
        indices.push(i);
        assert(indices@ =~= Seq::new((i + 1) as nat, |k: int| k as u16));
        i = i + 1;
    }
    indices
}

/// The vertex that an index names: the position of that index, with the
/// normal and the texture coordinate of that index where there are such, and
/// zeros where there are not.
pub open spec fn spec_vertex_at(
    positions: Seq<Point3>,
    normals: Seq<Vector3>,
    texcoords: Seq<Point2>,
    index: u16,
) -> PrimitiveVertex {
    PrimitiveVertex::spec_new(
        positions[index as int],
        if index < normals.len() {
            normals[index as int]
        } else {
            Vector3 { x: ZERO, y: ZERO, z: ZERO }
        },
        if index < texcoords.len() {
            texcoords[index as int]
        } else {
            Point2 { x: ZERO, y: ZERO }
        },
    )
}

/// Whether every index names a position.
pub open spec fn indices_in_range(positions: Seq<Point3>, indices: Seq<u16>) -> bool {
    forall|i: int| 0 <= i < indices.len() ==> (#[trigger] indices[i]) < positions.len()
}

/// The vertices of a primitive: one for each index, in the order of the
/// indices. `None` where an index names no position.
pub fn assemble_vertices(
    positions: &Vec<Point3>,
    normals: &Vec<Vector3>,
    texcoords: &Vec<Point2>,
    indices: &Vec<u16>,
) -> (r: Option<Vec<PrimitiveVertex>>)
    ensures
        r is Some <==> indices_in_range(positions@, indices@),
        r matches Some(vertices) ==> vertices@ == Seq::new(
            indices@.len(),
            |i: int| spec_vertex_at(positions@, normals@, texcoords@, indices@[i]),
        ),
{
    let mut vertices: Vec<PrimitiveVertex> = Vec::new();
    let mut i: usize = 0;
    while i < indices.len()
        invariant
            i <= indices@.len(),
            indices_in_range(positions@, indices@.take(i as int)),
            vertices@ == Seq::new(
                i as nat,
                |k: int| spec_vertex_at(positions@, normals@, texcoords@, indices@[k]),
            ),
        decreases indices@.len() - i,
    {
        let index = indices[i] as usize;
        if index >= positions.len() {
            assert(!indices_in_range(positions@, indices@)) by {
                assert(indices@[i as int] >= positions@.len());
            }
            return None;
        }
        let normal = if index < normals.len() {
            normals[index]
        } else {
            Vector3 { x: ZERO, y: ZERO, z: ZERO }
        };
        let texcoord = if index < texcoords.len() {
            texcoords[index]
        } else {
            Point2 { x: ZERO, y: ZERO }
        };
        vertices.push(PrimitiveVertex::new(positions[index], normal, texcoord));
        proof {
            assert(vertices@ =~= Seq::new(
                (i + 1) as nat,
                |k: int| spec_vertex_at(positions@, normals@, texcoords@, indices@[k]),
            ));
            assert forall|k: int| 0 <= k < indices@.take(i + 1).len() implies (
            #[trigger] indices@.take(i + 1)[k]) < positions@.len() by {
                if k < i {
                    assert(indices@.take(i as int)[k] == indices@[k]);
                }
            }
        }
        i = i + 1;
    }
    assert(indices@.take(i as int) =~= indices@);
    Some(vertices)
}

/// The indices that lie in memory as the given bytes, two bytes to the index;
/// `None` where the bytes are no whole number of indices.
pub fn indices_from_bytes(bytes: &[u8]) -> (r: Option<Vec<u16>>)
    ensures
        r is Some <==> bytes@.len() % 2 == 0,
        r matches Some(indices) ==> holds_halves(bytes@, indices@),
{
    halves_from_bytes(bytes)
}

} // verus!
