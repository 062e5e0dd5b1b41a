//! Scene objects: whatever a scene can hold and draw.
//!
//! The kinds of object are a closed set. Each kind can be mounted, unmounted
//! and drawn, has a transform and a material, and can be told apart from the
//! others when it is taken out of a scene again.

use vstd::prelude::*;
use crate::bytes::is_memory_of;
use crate::debug_normal::DebugNormals;
use crate::gltf::PrimitiveVertex;
use crate::material::MaterialKind;
use crate::math::Matrix4;
use crate::mesh::{Mesh, SimpleVertex};
use crate::vertex::vertex_words;

verus! {

/// An object of any kind.
pub enum AnyObject {
    /// A mesh of simple vertices.
    Mesh(Mesh<SimpleVertex>),
    /// A mesh of the vertices of a glTF primitive.
    Primitive(Mesh<PrimitiveVertex>),
    /// The debug normals of a mesh.
    Normals(DebugNormals),
}

/// What a scene asks of the objects it holds.
pub trait SceneObject: Sized {
    /// The transform that places the object in the world.
    spec fn spec_transform(&self) -> Matrix4;

    /// The material the object is drawn with.
    spec fn spec_material(&self) -> MaterialKind;

    /// The object after its mount hook.
    spec fn spec_mount(self) -> Self;

    /// The object after its unmount hook.
    spec fn spec_unmount(self) -> Self;

    /// Whether the object's vertex buffer is to be replaced: the object was
    /// changed since the buffer was filled.
    spec fn spec_needs_refresh(&self) -> bool;

    /// The object after its vertex buffer was replaced.
    spec fn spec_refresh(self) -> Self;

    /// How many vertices a draw call for the object draws, if any.
    spec fn spec_draw(&self) -> Option<u32>;

    /// The object as one of any kind.
    spec fn spec_upcast(self) -> AnyObject;

    /// The object of this kind that `object` is, if it is of this kind.
    spec fn spec_downcast(object: AnyObject) -> Option<Self>;

    /// An object that was made one of any kind is still of its kind, and the same.
    proof fn lemma_downcast_upcast(self)
        ensures
            Self::spec_downcast(self.spec_upcast()) == Some(self),
    ;

    /// An object that is of this kind is the one that it was made of.
    proof fn lemma_upcast_downcast(object: AnyObject)
        ensures
            Self::spec_downcast(object) matches Some(o) ==> o.spec_upcast() == object,
    ;

    /// The hooks do to an object what they do to it as one of any kind.
    proof fn lemma_upcast_hooks(self)
        ensures
            self.spec_upcast().spec_transform() == self.spec_transform(),
            self.spec_upcast().spec_material() == self.spec_material(),
            self.spec_upcast().spec_mount() == self.spec_mount().spec_upcast(),
            self.spec_upcast().spec_unmount() == self.spec_unmount().spec_upcast(),
            self.spec_upcast().spec_needs_refresh() == self.spec_needs_refresh(),
            self.spec_upcast().spec_refresh() == self.spec_refresh().spec_upcast(),
            self.spec_upcast().spec_draw() == self.spec_draw(),
    ;

    /// The transform that places the object in the world.
    fn transform(&self) -> (t: Matrix4)
        ensures
            t == self.spec_transform(),
    ;

    /// The material the object is drawn with.
    fn material(&self) -> (m: MaterialKind)
        ensures
            m == self.spec_material(),
    ;

    /// The mount hook: allocates what the object needs on the GPU.
    fn mount(&mut self)
        ensures
            *final(self) == old(self).spec_mount(),
    ;

    /// The unmount hook: frees what the object holds on the GPU.
    fn unmount(&mut self)
        ensures
            *final(self) == old(self).spec_unmount(),
    ;

    /// Whether the object's vertex buffer is to be replaced.
    fn needs_refresh(&self) -> (b: bool)
        ensures
            b == self.spec_needs_refresh(),
    ;

    /// Replaces the object's vertex buffer by one filled with what the object
    /// holds now.
    fn refresh(&mut self)
        ensures
            *final(self) == old(self).spec_refresh(),
    ;

    /// The draw hook: says how many vertices to draw, if any. It allocates
    /// nothing.
    fn render(&self) -> (vertices: Option<u32>)
        ensures
            vertices == self.spec_draw(),
    ;

    /// Makes the object one of any kind.
    fn upcast(self) -> (object: AnyObject)
        ensures
            object == self.spec_upcast(),
    ;

    /// Takes `object` as one of this kind, or hands it back.
    fn downcast(object: AnyObject) -> (r: Result<Self, AnyObject>)
        ensures
            match r {
                Ok(o) => Self::spec_downcast(object) == Some(o),
                Err(back) => Self::spec_downcast(object) is None && back == object,
            },
    ;

    /// Looks at `object` as one of this kind, if it is.
    fn downcast_ref(object: &AnyObject) -> (r: Option<&Self>)
        ensures
            match r {
                Some(o) => Self::spec_downcast(*object) == Some(*o),
                None => Self::spec_downcast(*object) is None,
            },
    ;
}

impl SceneObject for Mesh<SimpleVertex> {
    open spec fn spec_transform(&self) -> Matrix4 {
        self.transform
    }

    open spec fn spec_material(&self) -> MaterialKind {
        self.material
    }

    open spec fn spec_mount(self) -> Self {
        Mesh::spec_mount(self)
    }

    open spec fn spec_unmount(self) -> Self {
        Mesh::spec_unmount(self)
    }

    open spec fn spec_needs_refresh(&self) -> bool {
        Mesh::spec_needs_refresh(self)
    }

    open spec fn spec_refresh(self) -> Self {
        Mesh::spec_mount(self)
    }

    open spec fn spec_draw(&self) -> Option<u32> {
        Mesh::spec_draw(self)
    }

    open spec fn spec_upcast(self) -> AnyObject {
        AnyObject::Mesh(self)
    }

    open spec fn spec_downcast(object: AnyObject) -> Option<Self> {
        match object {
            AnyObject::Mesh(mesh) => Some(mesh),
            _ => None,
        }
    }

    proof fn lemma_downcast_upcast(self) {
    }

    proof fn lemma_upcast_downcast(object: AnyObject) {
    }

    proof fn lemma_upcast_hooks(self) {
    }

    fn transform(&self) -> (t: Matrix4) {
        Mesh::transform(self)
    }

    fn material(&self) -> (m: MaterialKind) {
        Mesh::material(self)
    }

    fn mount(&mut self) {
        Mesh::mount(self)
    }

    fn unmount(&mut self) {
        Mesh::unmount(self)
    }

    fn needs_refresh(&self) -> (b: bool) {
        Mesh::needs_refresh(self)
    }

    fn refresh(&mut self) {
        Mesh::refresh(self)
    }

    fn render(&self) -> (vertices: Option<u32>) {
        Mesh::render(self)
    }

    fn upcast(self) -> (object: AnyObject) {
        AnyObject::Mesh(self)
    }

    fn downcast(object: AnyObject) -> (r: Result<Self, AnyObject>) {
        match object {
            AnyObject::Mesh(mesh) => Ok(mesh),
            other => Err(other),
        }
    }

    fn downcast_ref(object: &AnyObject) -> (r: Option<&Self>) {
        match object {
            AnyObject::Mesh(mesh) => Some(mesh),
            _ => None,
        }
    }
}

impl SceneObject for Mesh<PrimitiveVertex> {
    open spec fn spec_transform(&self) -> Matrix4 {
        self.transform
    }

    open spec fn spec_material(&self) -> MaterialKind {
        self.material
    }

    open spec fn spec_mount(self) -> Self {
        Mesh::spec_mount(self)
    }

    open spec fn spec_unmount(self) -> Self {
        Mesh::spec_unmount(self)
    }

    open spec fn spec_needs_refresh(&self) -> bool {
        Mesh::spec_needs_refresh(self)
    }

    open spec fn spec_refresh(self) -> Self {
        Mesh::spec_mount(self)
    }

    open spec fn spec_draw(&self) -> Option<u32> {
        Mesh::spec_draw(self)
    }

    open spec fn spec_upcast(self) -> AnyObject {
        AnyObject::Primitive(self)
    }

    open spec fn spec_downcast(object: AnyObject) -> Option<Self> {
        match object {
            AnyObject::Primitive(mesh) => Some(mesh),
            _ => None,
        }
    }

    proof fn lemma_downcast_upcast(self) {
    }

    proof fn lemma_upcast_downcast(object: AnyObject) {
    }

    proof fn lemma_upcast_hooks(self) {
    }

    fn transform(&self) -> (t: Matrix4) {
        Mesh::transform(self)
    }

    fn material(&self) -> (m: MaterialKind) {
        Mesh::material(self)
    }

    fn mount(&mut self) {
        Mesh::mount(self)
    }

    fn unmount(&mut self) {
        Mesh::unmount(self)
    }

    fn needs_refresh(&self) -> (b: bool) {
        Mesh::needs_refresh(self)
    }

    fn refresh(&mut self) {
        Mesh::refresh(self)
    }

    fn render(&self) -> (vertices: Option<u32>) {
        Mesh::render(self)
    }

    fn upcast(self) -> (object: AnyObject) {
        AnyObject::Primitive(self)
    }

    fn downcast(object: AnyObject) -> (r: Result<Self, AnyObject>) {
        match object {
            AnyObject::Primitive(mesh) => Ok(mesh),
            other => Err(other),
        }
    }

    fn downcast_ref(object: &AnyObject) -> (r: Option<&Self>) {
        match object {
            AnyObject::Primitive(mesh) => Some(mesh),
            _ => None,
        }
    }
}

impl SceneObject for DebugNormals {
    open spec fn spec_transform(&self) -> Matrix4 {
        self.transform
    }

    open spec fn spec_material(&self) -> MaterialKind {
        MaterialKind::Line(self.material)
    }

    open spec fn spec_mount(self) -> Self {
        DebugNormals::spec_mount(self)
    }

    open spec fn spec_unmount(self) -> Self {
        DebugNormals::spec_unmount(self)
    }

    open spec fn spec_needs_refresh(&self) -> bool {
        DebugNormals::spec_needs_refresh(self)
    }

    open spec fn spec_refresh(self) -> Self {
        DebugNormals::spec_mount(self)
    }

    open spec fn spec_draw(&self) -> Option<u32> {
        DebugNormals::spec_draw(self)
    }

    open spec fn spec_upcast(self) -> AnyObject {
        AnyObject::Normals(self)
    }

    open spec fn spec_downcast(object: AnyObject) -> Option<Self> {
        match object {
            AnyObject::Normals(normals) => Some(normals),
            _ => None,
        }
    }

    proof fn lemma_downcast_upcast(self) {
    }

    proof fn lemma_upcast_downcast(object: AnyObject) {
    }

    proof fn lemma_upcast_hooks(self) {
    }

    fn transform(&self) -> (t: Matrix4) {
        DebugNormals::transform(self)
    }

    fn material(&self) -> (m: MaterialKind) {
        DebugNormals::material(self)
    }

    fn mount(&mut self) {
        DebugNormals::mount(self)
    }

    fn unmount(&mut self) {
        DebugNormals::unmount(self)
    }

    fn needs_refresh(&self) -> (b: bool) {
        DebugNormals::needs_refresh(self)
    }

    fn refresh(&mut self) {
        DebugNormals::refresh(self)
    }

    fn render(&self) -> (vertices: Option<u32>) {
        DebugNormals::render(self)
    }

    fn upcast(self) -> (object: AnyObject) {
        AnyObject::Normals(self)
    }

    fn downcast(object: AnyObject) -> (r: Result<Self, AnyObject>) {
        match object {
            AnyObject::Normals(normals) => Ok(normals),
            other => Err(other),
        }
    }

    fn downcast_ref(object: &AnyObject) -> (r: Option<&Self>) {
        match object {
            AnyObject::Normals(normals) => Some(normals),
            _ => None,
        }
    }
}

impl AnyObject {
    /// The transform that places the object in the world.
    pub open spec fn spec_transform(&self) -> Matrix4 {
        match *self {
            AnyObject::Mesh(mesh) => mesh.transform,
            AnyObject::Primitive(mesh) => mesh.transform,
            AnyObject::Normals(normals) => normals.transform,
        }
    }

    /// The material the object is drawn with.
    pub open spec fn spec_material(&self) -> MaterialKind {
        match *self {
            AnyObject::Mesh(mesh) => mesh.material,
            AnyObject::Primitive(mesh) => mesh.material,
            AnyObject::Normals(normals) => MaterialKind::Line(normals.material),
        }
    }

    /// The object after the mount hook of its kind.
    pub open spec fn spec_mount(self) -> Self {
        match self {
            AnyObject::Mesh(mesh) => AnyObject::Mesh(Mesh::spec_mount(mesh)),
            AnyObject::Primitive(mesh) => AnyObject::Primitive(Mesh::spec_mount(mesh)),
            AnyObject::Normals(normals) => AnyObject::Normals(DebugNormals::spec_mount(normals)),
        }
    }

    /// The object after the unmount hook of its kind.
    pub open spec fn spec_unmount(self) -> Self {
        match self {
            AnyObject::Mesh(mesh) => AnyObject::Mesh(Mesh::spec_unmount(mesh)),
            AnyObject::Primitive(mesh) => AnyObject::Primitive(Mesh::spec_unmount(mesh)),
            AnyObject::Normals(normals) => AnyObject::Normals(DebugNormals::spec_unmount(normals)),
        }
    }

    /// Whether the object's vertex buffer is to be replaced.
    pub open spec fn spec_needs_refresh(&self) -> bool {
        match *self {
            AnyObject::Mesh(mesh) => mesh.spec_needs_refresh(),
            AnyObject::Primitive(mesh) => mesh.spec_needs_refresh(),
            AnyObject::Normals(normals) => normals.spec_needs_refresh(),
        }
    }

    /// The object after its vertex buffer was replaced.
    pub open spec fn spec_refresh(self) -> Self {
        self.spec_mount()
    }

    /// How many vertices a draw call for the object draws, if any.
    pub open spec fn spec_draw(&self) -> Option<u32> {
        match *self {
            AnyObject::Mesh(mesh) => mesh.spec_draw(),
            AnyObject::Primitive(mesh) => mesh.spec_draw(),
            AnyObject::Normals(normals) => normals.spec_draw(),
        }
    }

    /// The transform that places the object in the world.
    pub fn transform(&self) -> (t: Matrix4)
        ensures
            t == self.spec_transform(),
    {
        match self {
            AnyObject::Mesh(mesh) => mesh.transform(),
            AnyObject::Primitive(mesh) => mesh.transform(),
            AnyObject::Normals(normals) => normals.transform(),
        }
    }

    /// The material the object is drawn with.
    pub fn material(&self) -> (m: MaterialKind)
        ensures
            m == self.spec_material(),
    {
        match self {
            AnyObject::Mesh(mesh) => mesh.material(),
            AnyObject::Primitive(mesh) => mesh.material(),
            AnyObject::Normals(normals) => normals.material(),
        }
    }

    /// The mount hook of the object's kind.
    pub fn mount(&mut self)
        ensures
            *final(self) == old(self).spec_mount(),
    {
        match self {
            AnyObject::Mesh(mesh) => mesh.mount(),
            AnyObject::Primitive(mesh) => mesh.mount(),
            AnyObject::Normals(normals) => normals.mount(),
        }
    }

    /// The unmount hook of the object's kind.
    pub fn unmount(&mut self)
        ensures
            *final(self) == old(self).spec_unmount(),
    {
        match self {
            AnyObject::Mesh(mesh) => mesh.unmount(),
            AnyObject::Primitive(mesh) => mesh.unmount(),
            AnyObject::Normals(normals) => normals.unmount(),
        }
    }

    /// Whether the object's vertex buffer is to be replaced.
    pub fn needs_refresh(&self) -> (b: bool)
        ensures
            b == self.spec_needs_refresh(),
    {
        match self {
            AnyObject::Mesh(mesh) => mesh.needs_refresh(),
            AnyObject::Primitive(mesh) => mesh.needs_refresh(),
            AnyObject::Normals(normals) => normals.needs_refresh(),
        }
    }

    /// Replaces the object's vertex buffer by one filled with what the object
    /// holds now.
    pub fn refresh(&mut self)
        ensures
            *final(self) == old(self).spec_refresh(),
    {
        match self {
            AnyObject::Mesh(mesh) => mesh.refresh(),
            AnyObject::Primitive(mesh) => mesh.refresh(),
            AnyObject::Normals(normals) => normals.refresh(),
        }
    }

    /// The draw hook of the object's kind.
    pub fn render(&self) -> (vertices: Option<u32>)
        ensures
            vertices == self.spec_draw(),
    {
        match self {
            AnyObject::Mesh(mesh) => mesh.render(),
            AnyObject::Primitive(mesh) => mesh.render(),
            AnyObject::Normals(normals) => normals.render(),
        }
    }

    /// The bytes that fill the object's vertex buffer: the words of its
    /// vertices as they lie in memory.
    pub fn vertex_bytes(&self) -> (bytes: Vec<u8>)
        ensures
            is_memory_of(bytes@, self.spec_vertex_words()),
    {
        match self {
            AnyObject::Mesh(mesh) => mesh.geometry.vertex_bytes(),
            AnyObject::Primitive(mesh) => mesh.geometry.vertex_bytes(),
            AnyObject::Normals(normals) => normals.lines.vertex_bytes(),
        }
    }

    /// The words of the object's vertices, vertex after vertex.
    pub open spec fn spec_vertex_words(&self) -> Seq<u32> {
        match *self {
            AnyObject::Mesh(mesh) => vertex_words(mesh.geometry@),
            AnyObject::Primitive(mesh) => vertex_words(mesh.geometry@),
            AnyObject::Normals(normals) => vertex_words(normals.lines@),
        }
    }
}

} // verus!
