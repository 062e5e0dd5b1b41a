//! Meshes: a geometry with a material and a place in the world.

use vstd::prelude::*;
use crate::geometry::{Geometry, VertexBuffer};
use crate::material::{Material, MaterialKind};
use crate::math::{Matrix4, Point2, Point3, Vector3, ZERO};
use crate::vertex::{Vertex, VertexAttribute, VertexBufferLayout, VertexFormat};

verus! {

/// A vertex with a position, a normal and a texture coordinate: eight words.
#[derive(Clone, Copy, Debug, PartialEq, Eq, Structural)]
pub struct SimpleVertex {
    pub position: Point3,
    pub normal: Vector3,
    pub uv: Point2,
}

impl SimpleVertex {
    /// The vertex at the origin with nothing set.
    pub open spec fn spec_zero() -> SimpleVertex {
        SimpleVertex {
            position: Point3 { x: ZERO, y: ZERO, z: ZERO },
            normal: Vector3 { x: ZERO, y: ZERO, z: ZERO },
            uv: Point2 { x: ZERO, y: ZERO },
        }
    }

    /// The vertex at `position` with nothing else set.
    pub open spec fn spec_at(position: Point3) -> SimpleVertex {
        SimpleVertex {
            position,
            normal: Vector3 { x: ZERO, y: ZERO, z: ZERO },
            uv: Point2 { x: ZERO, y: ZERO },
        }
    }

    /// The vertex at `position` with nothing else set.
    #[verifier::when_used_as_spec(spec_at)]
    pub fn at(position: Point3) -> (v: SimpleVertex)
        ensures
            v == SimpleVertex::spec_at(position),
    {
        SimpleVertex {
            position,
            normal: Vector3 { x: ZERO, y: ZERO, z: ZERO },
            uv: Point2 { x: ZERO, y: ZERO },
        }
    }
}

impl Default for SimpleVertex {
    fn default() -> (v: Self)
        ensures
            v == SimpleVertex::spec_zero(),
    {
        SimpleVertex {
            position: Point3 { x: ZERO, y: ZERO, z: ZERO },
            normal: Vector3 { x: ZERO, y: ZERO, z: ZERO },
            uv: Point2 { x: ZERO, y: ZERO },
        }
    }
}

impl Vertex for SimpleVertex {
    open spec fn stride_words() -> nat {
        8
    }

    open spec fn words(&self) -> Seq<u32> {
        self.position.words() + self.normal.words() + self.uv.words()
    }

    /// The normal points from the origin to the position, and the texture
    /// coordinate is the position seen from the front.
    open spec fn spec_from_position(position: Point3) -> Self {
        SimpleVertex {
            position,
            normal: position.spec_to_vec(),
            uv: Point2 { x: position.x, y: position.y },
        }
    }

    /// Position at byte 0, normal at byte 12, texture coordinate at byte 24.
    open spec fn attributes() -> Seq<VertexAttribute> {
        seq![
            VertexAttribute { offset: 0, shader_location: 0, format: VertexFormat::Float32x3 },
            VertexAttribute { offset: 12, shader_location: 1, format: VertexFormat::Float32x3 },
            VertexAttribute { offset: 24, shader_location: 2, format: VertexFormat::Float32x2 },
        ]
    }

    proof fn lemma_words_len(&self) {
    }

    fn push_words(&self, out: &mut Vec<u32>) {
        self.position.push_words(out);
        self.normal.push_words(out);
        self.uv.push_words(out);
        assert(out@ =~= old(out)@ + self.words());
    }

    fn from_position(position: Point3) -> (v: Self) {
        SimpleVertex { position, normal: position.to_vec(), uv: Point2::new(position.x, position.y) }
    }

    /// Position at byte 0, normal at byte 12, texture coordinate at byte 24,
    /// thirty-two bytes in all.
    fn buffer_layout() -> (layout: VertexBufferLayout) {
        let mut attributes: Vec<VertexAttribute> = Vec::new();
        attributes.push(
            VertexAttribute { offset: 0, shader_location: 0, format: VertexFormat::Float32x3 },
        );
        attributes.push(
            VertexAttribute { offset: 12, shader_location: 1, format: VertexFormat::Float32x3 },
        );
        attributes.push(
            VertexAttribute { offset: 24, shader_location: 2, format: VertexFormat::Float32x2 },
        );
        assert(attributes@ =~= Self::attributes());
        VertexBufferLayout { array_stride: 32, attributes }
    }
}

/// A geometry, the material it is drawn with, and the transform that places
/// it in the world.
pub struct Mesh<V: Vertex> {
    pub geometry: Geometry<V>,
    pub material: MaterialKind,
    pub transform: Matrix4,
}

impl<V: Vertex> Mesh<V> {
    /// The mesh with another geometry.
    pub open spec fn spec_with_geometry(self, geometry: Geometry<V>) -> Self {
        Mesh { geometry, material: self.material, transform: self.transform }
    }

    /// The mesh after its mount hook: the geometry has a fresh twin.
    pub open spec fn spec_mount(self) -> Self {
        self.spec_with_geometry(self.geometry.spec_allocated())
    }

    /// The mesh after its unmount hook: the geometry has no twin.
    pub open spec fn spec_unmount(self) -> Self {
        self.spec_with_geometry(self.geometry.spec_freed())
    }

    /// Whether the twin is to be replaced: there is one, and the vertices
    /// were changed since it was filled.
    pub open spec fn spec_needs_refresh(&self) -> bool {
        self.geometry.spec_vertex_buffer() is Some && self.geometry.spec_is_stale()
    }

    /// How many vertices a draw call draws: as many as the twin was filled
    /// with, if there is a twin.
    pub open spec fn spec_draw(&self) -> Option<u32> {
        match self.geometry.spec_vertex_buffer() {
            Some(buffer) => Some(buffer.vertex_count),
            None => None,
        }
    }

    /// A mesh of the given geometry and material, placed at the origin.
    pub fn new<M: Material>(geometry: Geometry<V>, material: M) -> (mesh: Self)
        ensures
            mesh.geometry == geometry,
            mesh.material == material.spec_kind(),
            mesh.transform == Matrix4::spec_identity(),
    {
        Mesh { geometry, material: material.kind(), transform: Matrix4::identity() }
    }

    /// A mesh of the given geometry that was given no material, placed at the
    /// origin: it is drawn in the flat colour of the fallback.
    pub fn plain(geometry: Geometry<V>) -> (mesh: Self)
        ensures
            mesh.geometry == geometry,
            mesh.material == MaterialKind::spec_fallback(),
            mesh.transform == Matrix4::spec_identity(),
    {
        Mesh { geometry, material: MaterialKind::fallback(), transform: Matrix4::identity() }
    }

    /// The transform, to be changed in place.
    pub fn transform_mut(&mut self) -> (t: &mut Matrix4)
        ensures
            *t == old(self).transform,
            final(self).transform == *final(t),
            final(self).material == old(self).material,
            final(self).geometry == old(self).geometry,
    {
        &mut self.transform
    }

    /// The geometry of the mesh.
    pub fn geometry(&self) -> (g: &Geometry<V>)
        ensures
            *g == self.geometry,
    {
        &self.geometry
    }

    /// The geometry, to be changed in place.
    pub fn geometry_mut(&mut self) -> (g: &mut Geometry<V>)
        ensures
            *g == old(self).geometry,
            *final(self) == old(self).spec_with_geometry(*final(g)),
    {
        &mut self.geometry
    }

    /// Gives the mesh another material.
    pub fn set_material<M: Material>(&mut self, material: M)
        ensures
            final(self).material == material.spec_kind(),
            final(self).transform == old(self).transform,
            final(self).geometry == old(self).geometry,
    {
        self.material = material.kind();
    }

    /// The mount hook: allocates the twin of the geometry.
    pub fn mount(&mut self)
        ensures
            *final(self) == old(self).spec_mount(),
            final(self).geometry@ == old(self).geometry@,
            final(self).geometry.spec_vertex_buffer() == Some(
                VertexBuffer { vertex_count: old(self).geometry@.len() as u32 },
            ),
            !final(self).geometry.spec_is_stale(),
            final(self).material == old(self).material,
            final(self).transform == old(self).transform,
    {
        let _ = self.geometry.allocate();
    }

    /// The unmount hook: frees the twin of the geometry.
    pub fn unmount(&mut self)
        ensures
            *final(self) == old(self).spec_unmount(),
            final(self).geometry@ == old(self).geometry@,
            final(self).geometry.spec_vertex_buffer() is None,
            !final(self).geometry.spec_is_stale(),
            final(self).material == old(self).material,
            final(self).transform == old(self).transform,
    {
        let _ = self.geometry.free();
    }

    /// Whether the twin is to be replaced.
    #[verifier::when_used_as_spec(spec_needs_refresh)]
    pub fn needs_refresh(&self) -> (b: bool)
        ensures
            b == self.spec_needs_refresh(),
    {
        self.geometry.vertex_buffer().is_some() && self.geometry.is_stale()
    }

    /// Replaces the twin of the geometry by one filled with the current vertices.
    pub fn refresh(&mut self)
        ensures
            *final(self) == old(self).spec_mount(),
            final(self).geometry@ == old(self).geometry@,
            final(self).geometry.spec_vertex_buffer() == Some(
                VertexBuffer { vertex_count: old(self).geometry@.len() as u32 },
            ),
            !final(self).geometry.spec_is_stale(),
            final(self).material == old(self).material,
            final(self).transform == old(self).transform,
    {
        let _ = self.geometry.allocate();
    }

    /// The draw hook: says how many vertices to draw, if any: none without a
    /// twin, else as many as the twin was filled with. For a twin that is not
    /// stale that is the number of vertices of the geometry.
    #[verifier::when_used_as_spec(spec_draw)]
    pub fn render(&self) -> (vertices: Option<u32>)
        ensures
            vertices == self.spec_draw(),
            vertices is Some <==> self.geometry.spec_vertex_buffer() is Some,
            vertices matches Some(drawn) ==> (self.geometry.spec_is_stale() || drawn
                == self.geometry@.len()),
    {
        match self.geometry.vertex_buffer() {
            Some(buffer) => Some(buffer.vertex_count),
            None => None,
        }
    }

    /// The transform that places the mesh in the world.
    pub fn transform(&self) -> (t: Matrix4)
        ensures
            t == self.transform,
    {
        self.transform
    }

    /// The material the mesh is drawn with.
    pub fn material(&self) -> (m: MaterialKind)
        ensures
            m == self.material,
    {
        self.material
    }
}

} // verus!
