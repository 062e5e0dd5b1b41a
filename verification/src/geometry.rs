//! Geometry: the vertices of an object on the CPU side, and the record of
//! their twin in a GPU vertex buffer.
//!
//! The twin is allocated late and never patched. While it exists it either
//! holds exactly the current vertices, or it is marked stale and is replaced
//! whole before the next draw.

use vstd::prelude::*;
use crate::bytes::{is_memory_of, lemma_memory_len, words_to_bytes};
use crate::math::{Point3, Scalar, MINUS_ONE, ONE};
use crate::vertex::{collect_words, lemma_vertex_words_len, vertex_words, Vertex};

verus! {

/// What went wrong with a geometry, in words.
#[derive(Debug)]
pub struct GeometryError(pub String);

impl GeometryError {
    /// The text of the error.
    pub fn message(&self) -> (s: &String)
        ensures
            *s == self.0,
    {
        &self.0
    }
}

/// The record of a vertex buffer on the GPU.
#[derive(Clone, Copy, Debug, PartialEq, Eq, Structural)]
pub struct VertexBuffer {
    /// How many vertices the buffer was filled with.
    pub vertex_count: u32,
}

/// The corners of the twelve triangles of a cube of side two about the
/// origin, face by face: far, near, left, right, top, bottom.
pub const CUBE_VERTICES: [[Scalar; 3]; 36] = [
    [MINUS_ONE, ONE, MINUS_ONE],
    [ONE, ONE, MINUS_ONE],
    [MINUS_ONE, MINUS_ONE, MINUS_ONE],
    [ONE, MINUS_ONE, MINUS_ONE],
    [MINUS_ONE, MINUS_ONE, MINUS_ONE],
    [ONE, ONE, MINUS_ONE],
    [ONE, ONE, ONE],
    [MINUS_ONE, ONE, ONE],
    [ONE, MINUS_ONE, ONE],
    [MINUS_ONE, MINUS_ONE, ONE],
    [ONE, MINUS_ONE, ONE],
    [MINUS_ONE, ONE, ONE],
    [MINUS_ONE, ONE, ONE],
    [MINUS_ONE, ONE, MINUS_ONE],
    [MINUS_ONE, MINUS_ONE, ONE],
    [MINUS_ONE, MINUS_ONE, MINUS_ONE],
    [MINUS_ONE, MINUS_ONE, ONE],
    [MINUS_ONE, ONE, MINUS_ONE],
    [ONE, ONE, MINUS_ONE],
    [ONE, ONE, ONE],
    [ONE, MINUS_ONE, MINUS_ONE],
    [ONE, MINUS_ONE, ONE],
    [ONE, MINUS_ONE, MINUS_ONE],
    [ONE, ONE, ONE],
    [ONE, ONE, MINUS_ONE],
    [MINUS_ONE, ONE, MINUS_ONE],
    [ONE, ONE, ONE],
    [MINUS_ONE, ONE, ONE],
    [ONE, ONE, ONE],
    [MINUS_ONE, ONE, MINUS_ONE],
    [ONE, MINUS_ONE, MINUS_ONE],
    [ONE, MINUS_ONE, ONE],
    [MINUS_ONE, MINUS_ONE, MINUS_ONE],
    [MINUS_ONE, MINUS_ONE, ONE],
    [MINUS_ONE, MINUS_ONE, MINUS_ONE],
    [ONE, MINUS_ONE, ONE],
];

/// The `i`-th corner of the cube.
pub open spec fn cube_corner(i: int) -> Point3 {
    Point3 { x: CUBE_VERTICES[i][0], y: CUBE_VERTICES[i][1], z: CUBE_VERTICES[i][2] }
}

/// An ordered sequence of vertices of one format, with the record of its GPU twin.
pub struct Geometry<V: Vertex> {
    vertices: Vec<V>,
    vertex_buffer: Option<VertexBuffer>,
    stale: bool,
}

impl<V: Vertex> Geometry<V> {
    /// One draw call can name every vertex, and a twin that is not stale was
    /// filled with the current vertices.
    #[verifier::type_invariant]
    pub closed spec fn inv(self) -> bool {
        &&& self.vertices@.len() <= u32::MAX
        &&& self.vertex_buffer matches Some(b) ==> (self.stale || b.vertex_count
            == self.vertices@.len())
    }

    /// The vertices.
    pub closed spec fn view(&self) -> Seq<V> {
        self.vertices@
    }

    /// The record of the GPU twin, if there is one.
    pub closed spec fn spec_vertex_buffer(&self) -> Option<VertexBuffer> {
        self.vertex_buffer
    }

    /// Whether the vertices were changed since the twin was filled.
    pub closed spec fn spec_is_stale(&self) -> bool {
        self.stale
    }

    /// The geometry with the same vertices and a fresh twin.
    pub closed spec fn spec_allocated(self) -> Self {
        Geometry {
            vertices: self.vertices,
            vertex_buffer: Some(VertexBuffer { vertex_count: self.vertices@.len() as u32 }),
            stale: false,
        }
    }

    /// The geometry with the same vertices and no twin.
    pub closed spec fn spec_freed(self) -> Self {
        Geometry { vertices: self.vertices, vertex_buffer: None, stale: false }
    }

    /// The geometry with other vertices; a twin, if there is one, is now stale.
    pub closed spec fn spec_with_vertices(self, vertices: Vec<V>) -> Self {
        Geometry { vertices, vertex_buffer: self.vertex_buffer, stale: self.vertex_buffer is Some }
    }

    /// What `spec_allocated` keeps and what it sets.
    pub proof fn lemma_allocated(self)
        ensures
            self.spec_allocated()@ == self@,
            self.spec_allocated().spec_vertex_buffer() == Some(
                VertexBuffer { vertex_count: self@.len() as u32 },
            ),
            !self.spec_allocated().spec_is_stale(),
    {
    }

    /// What `spec_freed` keeps and what it sets.
    pub proof fn lemma_freed(self)
        ensures
            self.spec_freed()@ == self@,
            self.spec_freed().spec_vertex_buffer() is None,
            !self.spec_freed().spec_is_stale(),
    {
    }

    /// What `spec_with_vertices` keeps and what it sets.
    pub proof fn lemma_with_vertices(self, vertices: Vec<V>)
        ensures
            self.spec_with_vertices(vertices)@ == vertices@,
            self.spec_with_vertices(vertices).spec_vertex_buffer() == self.spec_vertex_buffer(),
            self.spec_with_vertices(vertices).spec_is_stale() == (self.spec_vertex_buffer()
                is Some),
    {
    }

    /// A geometry of the given vertices, without a twin.
    pub fn new(vertices: Vec<V>) -> (g: Self)
        requires
            vertices@.len() <= u32::MAX,
        ensures
            g@ == vertices@,
            g.spec_vertex_buffer() is None,
            !g.spec_is_stale(),
    {
        Geometry { vertices, vertex_buffer: None, stale: false }
    }

    /// A geometry of the given vertices, without a twin; an error where there
    /// are more vertices than one draw call can name.
    pub fn try_new(vertices: Vec<V>) -> (r: Result<Self, GeometryError>)
        ensures
            match r {
                Ok(g) => vertices@.len() <= u32::MAX && g@ == vertices@ && g.spec_vertex_buffer()
                    is None && !g.spec_is_stale(),
                Err(error) => vertices@.len() > u32::MAX && error.0@
                    == "too many vertices for one draw call"@,
            },
    {
        if vertices.len() as u64 > u32::MAX as u64 {
            Err(GeometryError("too many vertices for one draw call".to_owned()))
        } else {
            Ok(Geometry::new(vertices))
        }
    }

    /// Frees the twin, if any, and records a new one filled with the current
    /// vertices. Never fails.
    pub fn allocate(&mut self) -> (r: Result<(), GeometryError>)
        ensures
            r is Ok,
            *final(self) == old(self).spec_allocated(),
            final(self)@ == old(self)@,
            final(self).spec_vertex_buffer() == Some(
                VertexBuffer { vertex_count: old(self)@.len() as u32 },
            ),
            !final(self).spec_is_stale(),
    {
        proof {
            use_type_invariant(&*self);
            old(self).lemma_allocated();
        }
        let _ = self.free();
        let count = self.vertices.len() as u32;
        self.vertex_buffer = Some(VertexBuffer { vertex_count: count });
        Ok(())
    }

    /// Frees the twin, if any. Never fails.
    pub fn free(&mut self) -> (r: Result<(), GeometryError>)
        ensures
            r is Ok,
            *final(self) == old(self).spec_freed(),
            final(self)@ == old(self)@,
            final(self).spec_vertex_buffer() is None,
            !final(self).spec_is_stale(),
    {
        proof {
            use_type_invariant(&*self);
            old(self).lemma_freed();
        }
        self.vertex_buffer = None;
        self.stale = false;
        Ok(())
    }

    /// Replaces the vertices. A twin, if there is one, is from now on stale: it
    /// is to be freed and allocated again, never patched.
    pub fn set_vertices(&mut self, vertices: Vec<V>)
        requires
            vertices@.len() <= u32::MAX,
        ensures
            *final(self) == old(self).spec_with_vertices(vertices),
            final(self)@ == vertices@,
            final(self).spec_vertex_buffer() == old(self).spec_vertex_buffer(),
            final(self).spec_is_stale() == (old(self).spec_vertex_buffer() is Some),
    {
        proof {
            use_type_invariant(&*self);
            old(self).lemma_with_vertices(vertices);
        }
        self.stale = self.vertex_buffer.is_some();
        self.vertices = vertices;
    }

    /// The number of vertices.
    pub fn vertex_count(&self) -> (n: usize)
        ensures
            n == self@.len(),
            n <= u32::MAX,
    {
        proof {
            use_type_invariant(self);
        }
        self.vertices.len()
    }

    /// The record of the GPU twin, if there is one. A twin that is not stale
    /// was filled with the current vertices, and its count is their number.
    #[verifier::when_used_as_spec(spec_vertex_buffer)]
    pub fn vertex_buffer(&self) -> (b: Option<VertexBuffer>)
        ensures
            b == self.spec_vertex_buffer(),
            b matches Some(twin) ==> (self.spec_is_stale() || twin.vertex_count == self@.len()),
    {
        proof {
            use_type_invariant(self);
        }
        self.vertex_buffer
    }

    /// Whether the vertices were changed since the twin was filled.
    #[verifier::when_used_as_spec(spec_is_stale)]
    pub fn is_stale(&self) -> (b: bool)
        ensures
            b == self.spec_is_stale(),
    {
        self.stale
    }

    /// The vertices.
    pub fn vertices(&self) -> (v: &[V])
        ensures
            v@ == self@,
    {
        self.vertices.as_slice()
    }

    /// The words that fill the twin: those of each vertex in turn.
    pub fn vertex_words(&self) -> (words: Vec<u32>)
        ensures
            words@ == vertex_words(self@),
    {
        collect_words(&self.vertices)
    }

    /// The bytes that fill the twin: its words as they lie in memory, four
    /// bytes to the word and a stride's worth of words to the vertex.
    pub fn vertex_bytes(&self) -> (bytes: Vec<u8>)
        ensures
            is_memory_of(bytes@, vertex_words(self@)),
            bytes@.len() == 4 * (self@.len() * V::stride_words()),
    {
        let words = collect_words(&self.vertices);
        let bytes = words_to_bytes(&words);
        proof {
            lemma_memory_len(bytes@, words@);
            lemma_vertex_words_len(self@);
        }
        bytes
    }

    /// A copy with the same vertices and no twin of its own.
    pub fn duplicate(&self) -> (g: Self)
        ensures
            g@ == self@,
            g.spec_vertex_buffer() is None,
            !g.spec_is_stale(),
    {
        proof {
            use_type_invariant(self);
        }
        let mut vertices: Vec<V> = Vec::new();
        let mut i: usize = 0;
        while i < self.vertices.len()
            invariant
                i <= self.vertices.len(),
                vertices@ == self.vertices@.take(i as int),
            decreases self.vertices.len() - i,
        {
            vertices.push(self.vertices[i]);
            assert(vertices@ =~= self.vertices@.take(i + 1));
            i = i + 1;
        }
        assert(self.vertices@.take(i as int) =~= self.vertices@);
        Geometry { vertices, vertex_buffer: None, stale: false }
    }

    /// The cube: one vertex of the format at each of the thirty-six corners.
    pub fn cube() -> (g: Self)
        ensures
            g@ == Seq::new(36, |i: int| V::spec_from_position(cube_corner(i))),
            g.spec_vertex_buffer() is None,
            !g.spec_is_stale(),
    {
        let mut vertices: Vec<V> = Vec::new();
        let mut i: usize = 0;
        while i < 36
            invariant
                i <= 36,
                vertices@ == Seq::new(i as nat, |k: int| V::spec_from_position(cube_corner(k))),
            decreases 36 - i,
        {
            let corner = CUBE_VERTICES[i];
            let position = Point3 { x: corner[0], y: corner[1], z: corner[2] };
            vertices.push(V::from_position(position));
            assert(vertices@ =~= Seq::new(
                (i + 1) as nat,
                |k: int| V::spec_from_position(cube_corner(k)),
            ));
            i = i + 1;
        }
        Geometry { vertices, vertex_buffer: None, stale: false }
    }
}

impl<V: Vertex> Clone for Geometry<V> {
    /// A copy with the same vertices and no twin of its own.
    fn clone(&self) -> (g: Self)
        ensures
            g@ == self@,
            g.spec_vertex_buffer() is None,
            !g.spec_is_stale(),
    {
        self.duplicate()
    }
}

} // verus!
