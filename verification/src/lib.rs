//! A small real-time scene renderer: a registry of drawable objects, the
//! layout of their uniform data in shared GPU buffers, and the sequence of
//! GPU commands that draws one frame.
//!
//! The library decides and writes down; it never touches a GPU, a window or
//! a file. Every number that a shader reads is held as its bits.

pub mod bytes;
pub mod color;
pub mod context;
pub mod debug_normal;
pub mod event;
pub mod frame_order;
pub mod geometry;
pub mod gltf;
pub mod history;
pub mod layout;
pub mod lifecycle;
pub mod material;
pub mod math;
pub mod mesh;
pub mod pipelines;
pub mod program;
pub mod render_context;
pub mod renderer;
pub mod scene;
pub mod scene_object;
pub mod scene_view;
pub mod state;
pub mod term;
pub mod texture;
pub mod vertex;
pub mod window;

pub use crate::color::Color;
pub use crate::context::{ActorID, MountContext, UpdateContext};
pub use crate::debug_normal::DebugNormals;
pub use crate::event::{Event, Key, MouseButton};
pub use crate::geometry::{Geometry, GeometryError, VertexBuffer};
pub use crate::gltf::{GltfError, PrimitiveVertex};
pub use crate::layout::{LayoutError, UniformLayout, MAX_OBJECTS};
pub use crate::material::{
    BasicMaterial, CustomMaterial, LineMaterial, Material, MaterialKind, PipelineFamily,
    TextureMaterial,
};
pub use crate::mesh::{Mesh, SimpleVertex};
pub use crate::pipelines::{ActorUniform, CameraUniform, Pipeline, Uniform};
pub use crate::program::{Program, ProgramID, SimpleProgram};
pub use crate::render_context::{RenderCommand, RenderContext};
pub use crate::renderer::{Recovery, Renderer, SurfaceError};
pub use crate::scene::{DebugUniforms, ObjectID, Scene, SceneError, SceneUniforms};
pub use crate::scene_object::{AnyObject, SceneObject};
pub use crate::state::PipelineID;
pub use crate::texture::{Texture, TextureBuffer, TextureError, TextureID};
pub use crate::vertex::Vertex;
pub use crate::window::WindowContext;
