//! The pipeline of debug lines: simple vertices taken two by two.

use vstd::prelude::*;
use crate::mesh::SimpleVertex;
use crate::pipelines::{
    uniform_bind_group_layout, uniform_entries, BindGroupLayoutEntry, FrontFace, Pipeline,
    PipelineDescriptor, PrimitiveTopology, Shader, TextureFormat,
};
use crate::vertex::Vertex;

verus! {

/// The pipeline of debug lines: simple vertices taken two by two.
pub struct LinePipeline {
    descriptor: PipelineDescriptor,
}

impl LinePipeline {
    /// What the pipeline is created from.
    pub closed spec fn spec_descriptor(&self) -> PipelineDescriptor {
        self.descriptor
    }

    /// Whether a descriptor is the one of this pipeline.
    pub open spec fn describes(d: PipelineDescriptor) -> bool {
        &&& d.shader == Shader::Line
        &&& d.bind_group_layout@ == uniform_entries()
        &&& d.texture_bind_group_layout is None
        &&& d.vertex_layout.attributes@ == SimpleVertex::attributes()
        &&& d.vertex_layout.array_stride == 4 * SimpleVertex::stride_words()
        &&& d.target_format == TextureFormat::Rgba8UnormSrgb
        &&& d.topology == PrimitiveTopology::LineList
        &&& d.front_face == FrontFace::Cw
        &&& !d.cull_back_faces
        &&& d.depth_format == Some(TextureFormat::Depth32Float)
    }

    /// The pipeline, ready to be created on a device.
    pub fn new() -> (pipeline: Self)
        ensures
            Self::describes(pipeline.spec_descriptor()),
    {
        LinePipeline {
            descriptor: PipelineDescriptor {
                shader: Shader::Line,
                bind_group_layout: uniform_bind_group_layout(),
                texture_bind_group_layout: None,
                vertex_layout: SimpleVertex::buffer_layout(),
                target_format: TextureFormat::Rgba8UnormSrgb,
                topology: PrimitiveTopology::LineList,
                front_face: FrontFace::Cw,
                cull_back_faces: false,
                depth_format: Some(TextureFormat::Depth32Float),
            },
        }
    }

    /// What the pipeline is created from.
    pub fn descriptor(&self) -> (d: &PipelineDescriptor)
        ensures
            *d == self.spec_descriptor(),
    {
        &self.descriptor
    }
}

impl Pipeline for LinePipeline {
    fn bind_group_layout(&self) -> (entries: &Vec<BindGroupLayoutEntry>)
        ensures
            *entries == self.spec_descriptor().bind_group_layout,
    {
        &self.descriptor.bind_group_layout
    }

    fn texture_bind_group_layout(&self) -> (entries: Option<&Vec<BindGroupLayoutEntry>>)
        ensures
            match entries {
                Some(e) => self.spec_descriptor().texture_bind_group_layout == Some(*e),
                None => self.spec_descriptor().texture_bind_group_layout is None,
            },
    {
        self.descriptor.texture_bind_group_layout.as_ref()
    }
}

} // verus!
