//! The parts of a glTF document that a scene is built from, as plain values,
//! and the arithmetic of finding an accessor's bytes.

use vstd::prelude::*;
use crate::math::{Matrix4, Scalar, Vector4, ONE};

verus! {

/// The document's note on who made it.
#[derive(Debug)]
pub struct AssetDoc {
    pub generator: String,
    pub version: String,
}

/// A scene of the document: the nodes at its root.
#[derive(Debug)]
pub struct SceneDoc {
    pub name: String,
    pub nodes: Vec<u64>,
}

/// A node: an optional mesh, children, and a placement given either as a
/// translation or as a matrix of sixteen numbers, column after column.
#[derive(Debug)]
pub struct NodeDoc {
    pub name: String,
    pub mesh: Option<u64>,
    pub children: Option<Vec<u64>>,
    pub translation: Option<(Scalar, Scalar, Scalar)>,
    pub matrix: Option<[Scalar; 16]>,
}

/// A material, by name.
#[derive(Debug)]
pub struct MaterialDoc {
    pub name: String,
}

/// A mesh: its primitives.
#[derive(Debug)]
pub struct MeshDoc {
    pub name: String,
    pub primitives: Vec<PrimitiveDoc>,
}

/// A texture: the indices of its sampler and of its image.
#[derive(Debug)]
pub struct TextureDoc {
    pub sampler: u64,
    pub source: u64,
}

/// An image: where its file is.
#[derive(Debug)]
pub struct ImageDoc {
    pub mime_type: String,
    pub name: String,
    pub uri: String,
}

/// One named attribute of a primitive: the index of its accessor.
#[derive(Debug)]
pub struct AttributeDoc {
    pub name: String,
    pub accessor: u64,
}

/// A primitive: the accessors of its attributes and of its indices, and the
/// index of its material.
#[derive(Debug)]
pub struct PrimitiveDoc {
    pub attributes: Vec<AttributeDoc>,
    pub indices: Option<u64>,
    pub material: u64,
}

/// An accessor: a typed window into a buffer view.
#[derive(Debug)]
pub struct AccessorDoc {
    pub buffer_view: u64,
    pub byte_offset: u64,
    pub component_type: u64,
    pub count: u64,
    pub ty: String,
}

/// A buffer view: a window into a buffer.
#[derive(Debug)]
pub struct BufferViewDoc {
    pub buffer: u64,
    pub byte_length: u64,
    pub byte_offset: u64,
    pub byte_stride: Option<u64>,
    pub target: Option<u64>,
}

/// A sampler: its two filters.
#[derive(Debug)]
pub struct SamplerDoc {
    pub mag_filter: u64,
    pub min_filter: u64,
}

/// A buffer: where its file is, and how long it is.
#[derive(Debug)]
pub struct BufferDoc {
    pub byte_length: u64,
    pub ty: Option<String>,
    pub uri: String,
}

/// A glTF document.
#[derive(Debug)]
pub struct GltfDoc {
    /// Where the document was read from.
    pub uri: String,
    pub asset: AssetDoc,
    pub extensions_used: Vec<String>,
    pub extensions_required: Vec<String>,
    pub scene: u64,
    pub scenes: Vec<SceneDoc>,
    pub nodes: Vec<NodeDoc>,
    pub materials: Vec<MaterialDoc>,
    pub meshes: Vec<MeshDoc>,
    pub textures: Vec<TextureDoc>,
    pub images: Vec<ImageDoc>,
    pub accessors: Vec<AccessorDoc>,
    pub buffer_views: Vec<BufferViewDoc>,
    pub samplers: Vec<SamplerDoc>,
    pub buffers: Vec<BufferDoc>,
}

/// Where the bytes of an accessor lie: in which buffer, from which byte, up to
/// which.
#[derive(Clone, Copy, Debug, PartialEq, Eq, Structural)]
pub struct ByteRange {
    pub buffer: u64,
    pub start: u64,
    pub end: u64,
}

impl NodeDoc {
    /// The matrix that places the node in its parent: the translation where
    /// there is one, else the matrix where there is one, else the identity.
    pub open spec fn spec_placement(&self) -> Matrix4 {
        match self.translation {
            Some(t) => Matrix4 {
                x: Matrix4::spec_identity().x,
                y: Matrix4::spec_identity().y,
                z: Matrix4::spec_identity().z,
                w: Vector4 { x: t.0, y: t.1, z: t.2, w: ONE },
            },
            None => match self.matrix {
                Some(m) => Matrix4 {
                    x: Vector4 { x: m[0], y: m[1], z: m[2], w: m[3] },
                    y: Vector4 { x: m[4], y: m[5], z: m[6], w: m[7] },
                    z: Vector4 { x: m[8], y: m[9], z: m[10], w: m[11] },
                    w: Vector4 { x: m[12], y: m[13], z: m[14], w: m[15] },
                },
                None => Matrix4::spec_identity(),
            },
        }
    }

    /// The matrix that places the node in its parent.
    pub fn placement(&self) -> (m: Matrix4)
        ensures
            m == self.spec_placement(),
    {
        match self.translation {
            Some(t) => {
                let identity = Matrix4::identity();
                Matrix4 {
                    x: identity.x,
                    y: identity.y,
                    z: identity.z,
                    w: Vector4 { x: t.0, y: t.1, z: t.2, w: ONE },
                }
            },
            None => match &self.matrix {
                Some(m) => Matrix4 {
                    x: Vector4 { x: m[0], y: m[1], z: m[2], w: m[3] },
                    y: Vector4 { x: m[4], y: m[5], z: m[6], w: m[7] },
                    z: Vector4 { x: m[8], y: m[9], z: m[10], w: m[11] },
                    w: Vector4 { x: m[12], y: m[13], z: m[14], w: m[15] },
                },
                None => Matrix4::identity(),
            },
        }
    }
}

impl GltfDoc {
    /// Where the bytes of the accessor of the given index lie: in the buffer
    /// of its view, from the sum of the two offsets, for the length of the
    /// view. There is no such place where the document has no such accessor or
    /// no such view, or where the end is beyond what 64 bits can name.
    pub open spec fn spec_accessor_range(&self, index: u64) -> Option<ByteRange> {
        if index >= self.accessors@.len() {
            None
        } else {
            let accessor = self.accessors@[index as int];
            if accessor.buffer_view >= self.buffer_views@.len() {
                None
            } else {
                let view = self.buffer_views@[accessor.buffer_view as int];
                let start = accessor.byte_offset + view.byte_offset;
                let end = start + view.byte_length;
                if end > u64::MAX {
                    None
                } else {
                    Some(ByteRange { buffer: view.buffer, start: start as u64, end: end as u64 })
                }
            }
        }
    }

    /// Where the bytes of the accessor of the given index lie.
    pub fn accessor_range(&self, index: u64) -> (r: Option<ByteRange>)
        ensures
            r == self.spec_accessor_range(index),
            r matches Some(range) ==> range.start <= range.end,
    {
        if index >= self.accessors.len() as u64 {
            return None;
        }
        let accessor = &self.accessors[index as usize];
        if accessor.buffer_view >= self.buffer_views.len() as u64 {
            return None;
        }
        let view = &self.buffer_views[accessor.buffer_view as usize];
        let start = match accessor.byte_offset.checked_add(view.byte_offset) {
            Some(start) => start,
            None => {
                return None;
            },
        };
        match start.checked_add(view.byte_length) {
            Some(end) => Some(ByteRange { buffer: view.buffer, start, end }),
            None => None,
        }
    }

    /// The index of the image that a primitive of the given material is
    /// textured with: the source of the texture of that index.
    pub fn texture_of(&self, material: u64) -> (r: Option<u64>)
        ensures
            r == (if material < self.textures@.len() {
                Some(self.textures@[material as int].source)
            } else {
                None
            }),
    {
        if material < self.textures.len() as u64 {
            Some(self.textures[material as usize].source)
        } else {
            None
        }
    }
}

impl PrimitiveDoc {
    /// The accessor of the first attribute of the given name among the first
    /// `n`, if there is one.
    pub open spec fn spec_attribute_upto(&self, name: Seq<char>, n: int) -> Option<u64>
        decreases n,
    {
        if n <= 0 {
            None
        } else {
            match self.spec_attribute_upto(name, n - 1) {
                Some(accessor) => Some(accessor),
                None => if self.attributes@[n - 1].name@ == name {
                    Some(self.attributes@[n - 1].accessor)
                } else {
                    None
                },
            }
        }
    }

    /// The accessor of the attribute of the given name, if the primitive has one.
    pub open spec fn spec_attribute(&self, name: Seq<char>) -> Option<u64> {
        self.spec_attribute_upto(name, self.attributes@.len() as int)
    }

    /// The accessor of the attribute of the given name, if the primitive has one.
    pub fn attribute(&self, name: &String) -> (r: Option<u64>)
        ensures
            r == self.spec_attribute(name@),
    {
        let mut i: usize = 0;
        while i < self.attributes.len()
            invariant
                i <= self.attributes@.len(),
                self.spec_attribute_upto(name@, i as int) is None,
            decreases self.attributes@.len() - i,
        {
            if self.attributes[i].name == *name {
                proof {
                    self.lemma_attribute_found(name@, i as int, self.attributes@.len() as int);
                }
                return Some(self.attributes[i].accessor);
            }
            i = i + 1;
        }
        None
    }

    /// Once an attribute of the name is found, more attributes change nothing.
    pub proof fn lemma_attribute_found(&self, name: Seq<char>, i: int, n: int)
        requires
            0 <= i < n <= self.attributes@.len(),
            self.spec_attribute_upto(name, i) is None,
            self.attributes@[i].name@ == name,
        ensures
            self.spec_attribute_upto(name, n) == Some(self.attributes@[i].accessor),
        decreases n,
    {
        if n > i + 1 {
            self.lemma_attribute_found(name, i, n - 1);
        }
    }
}

} // verus!
