//! Debug normals: one short line at each vertex of a mesh, in the direction
//! of its normal.

use vstd::prelude::*;
use crate::geometry::{Geometry, VertexBuffer};
use crate::material::{LineMaterial, MaterialKind};
use crate::math::{Matrix4, Point3};
use crate::mesh::SimpleVertex;

verus! {

/// A list of lines, two vertices to the line, drawn with the line material.
pub struct DebugNormals {
    pub lines: Geometry<SimpleVertex>,
    pub dirty: bool,
    pub material: LineMaterial,
    pub transform: Matrix4,
}

/// The vertices of the lines with the given ends: for each line its foot,
/// then its tip, with nothing but the position set.
pub open spec fn line_vertices(ends: Seq<(Point3, Point3)>) -> Seq<SimpleVertex> {
    Seq::new(
        2 * ends.len(),
        |i: int|
            if i % 2 == 0 {
                SimpleVertex::spec_at(ends[i / 2].0)
            } else {
                SimpleVertex::spec_at(ends[i / 2].1)
            },
    )
}

impl DebugNormals {
    /// The object with other lines.
    pub open spec fn spec_with_lines(self, lines: Geometry<SimpleVertex>, dirty: bool) -> Self {
        DebugNormals { lines, dirty, material: self.material, transform: self.transform }
    }

    /// The object after its mount hook: the lines have a fresh twin.
    pub open spec fn spec_mount(self) -> Self {
        self.spec_with_lines(self.lines.spec_allocated(), false)
    }

    /// The object after its unmount hook: the lines have no twin.
    pub open spec fn spec_unmount(self) -> Self {
        self.spec_with_lines(self.lines.spec_freed(), self.dirty)
    }

    /// Whether the twin is to be replaced: the lines were changed since it
    /// was filled.
    pub open spec fn spec_needs_refresh(&self) -> bool {
        self.dirty
    }

    /// How many vertices a draw call draws: as many as the twin was filled
    /// with, if there is a twin.
    pub open spec fn spec_draw(&self) -> Option<u32> {
        match self.lines.spec_vertex_buffer() {
            Some(buffer) => Some(buffer.vertex_count),
            None => None,
        }
    }

    /// No lines yet, placed at the origin.
    pub fn new() -> (normals: Self)
        ensures
            normals.lines@.len() == 0,
            normals.lines.spec_vertex_buffer() is None,
            !normals.lines.spec_is_stale(),
            normals.dirty,
            normals.transform == Matrix4::spec_identity(),
    {
        DebugNormals {
            lines: Geometry::new(Vec::new()),
            dirty: true,
            material: LineMaterial::new(),
            transform: Matrix4::identity(),
        }
    }

    /// Replaces the lines: one from each foot to its tip. The twin is replaced
    /// when the object is next drawn.
    pub fn set_vertices(&mut self, ends: &Vec<(Point3, Point3)>)
        requires
            2 * ends@.len() <= u32::MAX,
        ensures
            final(self).lines@ == line_vertices(ends@),
            final(self).lines.spec_vertex_buffer() == old(self).lines.spec_vertex_buffer(),
            final(self).lines.spec_is_stale() == (old(self).lines.spec_vertex_buffer() is Some),
            final(self).dirty,
            final(self).material == old(self).material,
            final(self).transform == old(self).transform,
    {
        let mut vertices: Vec<SimpleVertex> = Vec::new();
        let mut i: usize = 0;
        while i < ends.len()
            invariant
                i <= ends@.len(),
                vertices@ == line_vertices(ends@.take(i as int)),
            decreases ends.len() - i,
        {
            let (foot, tip) = ends[i];
            vertices.push(SimpleVertex::at(foot));
            vertices.push(SimpleVertex::at(tip));
            assert(vertices@ =~= line_vertices(ends@.take(i + 1)));
            i = i + 1;
        }
        assert(ends@.take(i as int) =~= ends@);
        proof {
            old(self).lines.lemma_with_vertices(vertices);
        }
        self.lines.set_vertices(vertices);
        self.dirty = true;
    }

    /// The mount hook: allocates the twin of the lines.
    pub fn mount(&mut self)
        ensures
            *final(self) == old(self).spec_mount(),
            final(self).lines@ == old(self).lines@,
            final(self).lines.spec_vertex_buffer() == Some(
                VertexBuffer { vertex_count: old(self).lines@.len() as u32 },
            ),
            !final(self).lines.spec_is_stale(),
            !final(self).dirty,
            final(self).material == old(self).material,
            final(self).transform == old(self).transform,
    {
        let _ = self.lines.allocate();
        self.dirty = false;
    }

    /// The unmount hook: frees the twin of the lines.
    pub fn unmount(&mut self)
        ensures
            *final(self) == old(self).spec_unmount(),
            final(self).lines@ == old(self).lines@,
            final(self).lines.spec_vertex_buffer() is None,
            !final(self).lines.spec_is_stale(),
            final(self).dirty == old(self).dirty,
            final(self).material == old(self).material,
            final(self).transform == old(self).transform,
    {
        let _ = self.lines.free();
    }

    /// Whether the twin is to be replaced.
    #[verifier::when_used_as_spec(spec_needs_refresh)]
    pub fn needs_refresh(&self) -> (b: bool)
        ensures
            b == self.spec_needs_refresh(),
    {
        self.dirty
    }

    /// Replaces the twin of the lines by one filled with the current lines.
    pub fn refresh(&mut self)
        ensures
            *final(self) == old(self).spec_mount(),
            final(self).lines@ == old(self).lines@,
            final(self).lines.spec_vertex_buffer() == Some(
                VertexBuffer { vertex_count: old(self).lines@.len() as u32 },
            ),
            !final(self).lines.spec_is_stale(),
            !final(self).dirty,
            final(self).material == old(self).material,
            final(self).transform == old(self).transform,
    {
        self.mount();
    }

    /// The draw hook: says how many vertices to draw, if any: none without a
    /// twin, else as many as the twin was filled with. For a twin that is not
    /// stale that is two vertices for each line.
    #[verifier::when_used_as_spec(spec_draw)]
    pub fn render(&self) -> (vertices: Option<u32>)
        ensures
            vertices == self.spec_draw(),
            vertices is Some <==> self.lines.spec_vertex_buffer() is Some,
            vertices matches Some(drawn) ==> (self.lines.spec_is_stale() || drawn
                == self.lines@.len()),
    {
        match self.lines.vertex_buffer() {
            Some(buffer) => Some(buffer.vertex_count),
            None => None,
        }
    }

    /// The transform that places the lines in the world.
    pub fn transform(&self) -> (t: Matrix4)
        ensures
            t == self.transform,
    {
        self.transform
    }

    /// The material the lines are drawn with.
    pub fn material(&self) -> (m: MaterialKind)
        ensures
            m == MaterialKind::Line(self.material),
    {
        MaterialKind::Line(self.material)
    }
}

} // verus!
