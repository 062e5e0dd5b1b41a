//! Materials: a closed set of variants, each of which says with which pipeline
//! family an object is drawn, which colour goes into its uniform record, and
//! which texture is bound for it. Materials are plain data; they never touch
//! the GPU.

use vstd::prelude::*;
use crate::color::{spec_debug_magenta, spec_default_color, spec_opaque_black, debug_magenta, default_color, opaque_black, Color};
use crate::program::ProgramID;
use crate::texture::{TextureID, DEFAULT_TEXTURE};

verus! {

/// The pipelines that share one set of uniform buffers.
#[derive(Clone, Copy, Debug, PartialEq, Eq, Hash, Structural)]
pub enum PipelineFamily {
    /// Filled triangles, flat-coloured or textured.
    Simple,
    /// Debug lines.
    Line,
    /// A program supplied by the application, named by its id.
    Custom(ProgramID),
}

/// A flat colour.
#[derive(Clone, Copy, Debug, PartialEq, Eq, Structural)]
pub struct BasicMaterial {
    pub color: Color,
}

/// Debug lines in a fixed colour.
#[derive(Clone, Copy, Debug, PartialEq, Eq, Structural)]
pub struct LineMaterial {}

/// The colours of a texture, named by its id.
#[derive(Clone, Copy, Debug, PartialEq, Eq, Structural)]
pub struct TextureMaterial {
    pub texture_id: TextureID,
}

/// Whatever the application's own program draws.
#[derive(Clone, Copy, Debug, PartialEq, Eq, Structural)]
pub struct CustomMaterial {
    pub program_id: ProgramID,
}

/// Any one of the material variants.
#[derive(Clone, Copy, Debug, PartialEq, Eq, Structural)]
pub enum MaterialKind {
    Basic(BasicMaterial),
    Textured(TextureMaterial),
    Line(LineMaterial),
    Custom(CustomMaterial),
}

/// What every material can do: say which variant it is.
pub trait Material {
    /// The variant that this material is.
    spec fn spec_kind(&self) -> MaterialKind;

    /// The variant that this material is.
    fn kind(&self) -> (k: MaterialKind)
        ensures
            k == self.spec_kind(),
    ;
}

impl BasicMaterial {
    pub fn new(color: Color) -> (m: Self)
        ensures
            m.color == color,
    {
        BasicMaterial { color }
    }
}

impl LineMaterial {
    pub fn new() -> (m: Self)
        ensures
            m == (LineMaterial {  }),
    {
        LineMaterial {  }
    }
}

impl TextureMaterial {
    pub fn new(texture_id: TextureID) -> (m: Self)
        ensures
            m.texture_id == texture_id,
    {
        TextureMaterial { texture_id }
    }
}

impl CustomMaterial {
    pub fn new(program_id: ProgramID) -> (m: Self)
        ensures
            m.program_id == program_id,
    {
        CustomMaterial { program_id }
    }
}

impl Material for BasicMaterial {
    open spec fn spec_kind(&self) -> MaterialKind {
        MaterialKind::Basic(*self)
    }

    fn kind(&self) -> (k: MaterialKind) {
        MaterialKind::Basic(*self)
    }
}

impl Material for LineMaterial {
    open spec fn spec_kind(&self) -> MaterialKind {
        MaterialKind::Line(*self)
    }

    fn kind(&self) -> (k: MaterialKind) {
        MaterialKind::Line(*self)
    }
}

impl Material for TextureMaterial {
    open spec fn spec_kind(&self) -> MaterialKind {
        MaterialKind::Textured(*self)
    }

    fn kind(&self) -> (k: MaterialKind) {
        MaterialKind::Textured(*self)
    }
}

impl Material for CustomMaterial {
    open spec fn spec_kind(&self) -> MaterialKind {
        MaterialKind::Custom(*self)
    }

    fn kind(&self) -> (k: MaterialKind) {
        MaterialKind::Custom(*self)
    }
}

impl Material for MaterialKind {
    open spec fn spec_kind(&self) -> MaterialKind {
        *self
    }

    fn kind(&self) -> (k: MaterialKind) {
        *self
    }
}

impl MaterialKind {
    /// The material of an object that was given none: a flat orange.
    pub open spec fn spec_fallback() -> MaterialKind {
        MaterialKind::Basic(BasicMaterial { color: spec_default_color() })
    }

    #[verifier::when_used_as_spec(spec_fallback)]
    pub fn fallback() -> (m: MaterialKind)
        ensures
            m == MaterialKind::spec_fallback(),
    {
        MaterialKind::Basic(BasicMaterial { color: default_color() })
    }

    /// The pipeline family that draws an object of this material.
    pub open spec fn spec_family(self) -> PipelineFamily {
        match self {
            MaterialKind::Basic(_) => PipelineFamily::Simple,
            MaterialKind::Textured(_) => PipelineFamily::Simple,
            MaterialKind::Line(_) => PipelineFamily::Line,
            MaterialKind::Custom(m) => PipelineFamily::Custom(m.program_id),
        }
    }

    #[verifier::when_used_as_spec(spec_family)]
    pub fn family(self) -> (f: PipelineFamily)
        ensures
            f == self.spec_family(),
    {
        match self {
            MaterialKind::Basic(_) => PipelineFamily::Simple,
            MaterialKind::Textured(_) => PipelineFamily::Simple,
            MaterialKind::Line(_) => PipelineFamily::Line,
            MaterialKind::Custom(m) => PipelineFamily::Custom(m.program_id),
        }
    }

    /// The colour that goes into the uniform record of an object of this
    /// material: its own for a flat colour, magenta for debug lines, opaque
    /// black where the colour comes from a texture or a program.
    pub open spec fn spec_uniform_color(self) -> Color {
        match self {
            MaterialKind::Basic(m) => m.color,
            MaterialKind::Textured(_) => spec_opaque_black(),
            MaterialKind::Line(_) => spec_debug_magenta(),
            MaterialKind::Custom(_) => spec_opaque_black(),
        }
    }

    #[verifier::when_used_as_spec(spec_uniform_color)]
    pub fn uniform_color(self) -> (c: Color)
        ensures
            c == self.spec_uniform_color(),
    {
        match self {
            MaterialKind::Basic(m) => m.color,
            MaterialKind::Textured(_) => opaque_black(),
            MaterialKind::Line(_) => debug_magenta(),
            MaterialKind::Custom(_) => opaque_black(),
        }
    }

    /// The texture that is bound when an object of this material is drawn:
    /// the built-in placeholder for a flat colour, the material's own for a
    /// textured one, none for lines and for programs of the application.
    pub open spec fn spec_texture(self) -> Option<TextureID> {
        match self {
            MaterialKind::Basic(_) => Some(DEFAULT_TEXTURE),
            MaterialKind::Textured(m) => Some(m.texture_id),
            MaterialKind::Line(_) => None,
            MaterialKind::Custom(_) => None,
        }
    }

    #[verifier::when_used_as_spec(spec_texture)]
    pub fn texture(self) -> (t: Option<TextureID>)
        ensures
            t == self.spec_texture(),
    {
        match self {
            MaterialKind::Basic(_) => Some(DEFAULT_TEXTURE),
            MaterialKind::Textured(m) => Some(m.texture_id),
            MaterialKind::Line(_) => None,
            MaterialKind::Custom(_) => None,
        }
    }

    /// Whether drawing needs a texture of the application's, not the placeholder.
    pub open spec fn spec_requires_texture(self) -> bool {
        self is Textured
    }

    #[verifier::when_used_as_spec(spec_requires_texture)]
    pub fn requires_texture(self) -> (b: bool)
        ensures
            b == self.spec_requires_texture(),
    {
        match self {
            MaterialKind::Textured(_) => true,
            _ => false,
        }
    }
}

} // verus!
