//! The pipeline of glTF primitives: their vertices, clockwise fronts, no face dropped.

use vstd::prelude::*;
use crate::gltf::PrimitiveVertex;
use crate::pipelines::{
    texture_bind_group_layout, texture_entries, uniform_bind_group_layout, uniform_entries,
    BindGroupLayoutEntry, FrontFace, Pipeline, PipelineDescriptor, PrimitiveTopology, Shader,
    TextureFormat,
};
use crate::vertex::Vertex;

verus! {

/// The pipeline of glTF primitives: their vertices, clockwise fronts, no face dropped.
pub struct PrimitivePipeline {
    descriptor: PipelineDescriptor,
}

impl PrimitivePipeline {
    /// What the pipeline is created from.
    pub closed spec fn spec_descriptor(&self) -> PipelineDescriptor {
        self.descriptor
    }

    /// Whether a descriptor is the one of this pipeline.
    pub open spec fn describes(d: PipelineDescriptor) -> bool {
        &&& d.shader == Shader::Primitive
        &&& d.bind_group_layout@ == uniform_entries()
        &&& d.texture_bind_group_layout matches Some(t) && t@ == texture_entries()
        &&& d.vertex_layout.attributes@ == PrimitiveVertex::attributes()
        &&& d.vertex_layout.array_stride == 4 * PrimitiveVertex::stride_words()
        &&& d.target_format == TextureFormat::Rgba8UnormSrgb
        &&& d.topology == PrimitiveTopology::TriangleList
        &&& d.front_face == FrontFace::Cw
        &&& !d.cull_back_faces
        &&& d.depth_format == Some(TextureFormat::Depth32Float)
    }

    /// The pipeline, ready to be created on a device.
    pub fn new() -> (pipeline: Self)
        ensures
            Self::describes(pipeline.spec_descriptor()),
    {
        PrimitivePipeline {
            descriptor: PipelineDescriptor {
                shader: Shader::Primitive,
                bind_group_layout: uniform_bind_group_layout(),
                texture_bind_group_layout: Some(texture_bind_group_layout()),
                vertex_layout: PrimitiveVertex::buffer_layout(),
                target_format: TextureFormat::Rgba8UnormSrgb,
                topology: PrimitiveTopology::TriangleList,
                front_face: FrontFace::Cw,
                cull_back_faces: false,
                depth_format: Some(TextureFormat::Depth32Float),
            },
        }
    }

    /// What the pipeline is created from.
    pub fn descriptor(&self) -> (d: &PipelineDescriptor)
        ensures
            *d == self.spec_descriptor(),
    {
        &self.descriptor
    }
}

impl Pipeline for PrimitivePipeline {
    fn bind_group_layout(&self) -> (entries: &Vec<BindGroupLayoutEntry>)
        ensures
            *entries == self.spec_descriptor().bind_group_layout,
    {
        &self.descriptor.bind_group_layout
    }

    fn texture_bind_group_layout(&self) -> (entries: Option<&Vec<BindGroupLayoutEntry>>)
        ensures
            match entries {
                Some(e) => self.spec_descriptor().texture_bind_group_layout == Some(*e),
                None => self.spec_descriptor().texture_bind_group_layout is None,
            },
    {
        self.descriptor.texture_bind_group_layout.as_ref()
    }
}

} // verus!
