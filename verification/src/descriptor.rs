//! The parts of a render pipeline's description that the grass pipeline reads or changes.

use vstd::prelude::*;
use crate::gpu::BindGroupLayout;

verus! {

/// The format of a vertex attribute.
#[derive(Clone, Copy, Debug, PartialEq, Eq, Structural)]
pub enum VertexFormat {
    Float32,
    Float32x2,
    Float32x3,
    Float32x4,
}

/// The number of bytes that an attribute of a format takes.
pub open spec fn format_size(format: VertexFormat) -> u64 {
    match format {
        VertexFormat::Float32 => 4,
        VertexFormat::Float32x2 => 8,
        VertexFormat::Float32x3 => 12,
        VertexFormat::Float32x4 => 16,
    }
}

/// `VertexFormat::size` of `bevy::render::render_resource`: the byte size of the format.
#[verifier::external_body]
pub(crate) fn vertex_format_size(format: VertexFormat) -> (size: u64)
    ensures
        size == format_size(format),
{
    let outside = match format {
        VertexFormat::Float32 => bevy::render::render_resource::VertexFormat::Float32,
        VertexFormat::Float32x2 => bevy::render::render_resource::VertexFormat::Float32x2,
        VertexFormat::Float32x3 => bevy::render::render_resource::VertexFormat::Float32x3,
        VertexFormat::Float32x4 => bevy::render::render_resource::VertexFormat::Float32x4,
    };
    outside.size()
}

/// Whether a vertex buffer advances with each vertex or with each instance.
#[derive(Clone, Copy, Debug, PartialEq, Eq, Structural)]
pub enum VertexStepMode {
    Vertex,
    Instance,
}

/// One attribute within the records of a vertex buffer.
#[derive(Clone, Copy, Debug, PartialEq, Eq, Structural)]
pub struct VertexAttribute {
    pub format: VertexFormat,
    pub offset: u64,
    pub shader_location: u32,
}

/// How the records of a vertex buffer are laid out.
#[derive(Debug)]
pub struct VertexBufferLayout {
    pub array_stride: u64,
    pub step_mode: VertexStepMode,
    pub attributes: Vec<VertexAttribute>,
}

/// The mathematical value of a [`VertexBufferLayout`].
pub struct VertexBufferLayoutView {
    pub array_stride: u64,
    pub step_mode: VertexStepMode,
    pub attributes: Seq<VertexAttribute>,
}

impl View for VertexBufferLayout {
    type V = VertexBufferLayoutView;

    open spec fn view(&self) -> VertexBufferLayoutView {
        VertexBufferLayoutView {
            array_stride: self.array_stride,
            step_mode: self.step_mode,
            attributes: self.attributes@,
        }
    }
}

/// A bind group layout of a pipeline: one that the mesh pipeline brought, known by its
/// place among them, or the layout of the region's uniform.
#[derive(Clone, Copy, Debug, PartialEq, Eq, Structural)]
pub enum PipelineLayout {
    Mesh { index: u32 },
    Region { layout: BindGroupLayout },
}

/// A vertex buffer of a pipeline: one that the mesh pipeline brought, known by its place
/// among them, or the buffer of the instances with its layout.
#[derive(Debug)]
pub enum VertexBuffer {
    Mesh { index: u32 },
    Instances { layout: VertexBufferLayout },
}

/// The mathematical value of a [`VertexBuffer`].
pub enum VertexBufferView {
    Mesh { index: u32 },
    Instances { layout: VertexBufferLayoutView },
}

impl View for VertexBuffer {
    type V = VertexBufferView;

    open spec fn view(&self) -> VertexBufferView {
        match self {
            VertexBuffer::Mesh { index } => VertexBufferView::Mesh { index: *index },
            VertexBuffer::Instances { layout } => VertexBufferView::Instances { layout: layout@ },
        }
    }
}

/// The vertex stage of a pipeline.
#[derive(Debug)]
pub struct VertexState {
    pub shader: u64,
    pub buffers: Vec<VertexBuffer>,
}

/// The fragment stage of a pipeline.
#[derive(Clone, Copy, Debug, PartialEq, Eq, Structural)]
pub struct FragmentState {
    pub shader: u64,
}

/// The description of a render pipeline.
#[derive(Debug)]
pub struct RenderPipelineDescriptor {
    pub label: Option<String>,
    pub layout: Option<Vec<PipelineLayout>>,
    pub vertex: VertexState,
    pub fragment: Option<FragmentState>,
}

/// The mathematical value of a [`RenderPipelineDescriptor`].
pub struct RenderPipelineDescriptorView {
    pub label: Option<Seq<char>>,
    pub layout: Option<Seq<PipelineLayout>>,
    pub vertex_shader: u64,
    pub vertex_buffers: Seq<VertexBufferView>,
    pub fragment: Option<FragmentState>,
}

/// The values of a list of vertex buffers, in its order.
pub open spec fn buffers_of(buffers: Seq<VertexBuffer>) -> Seq<VertexBufferView> {
    Seq::new(buffers.len(), |i: int| buffers[i]@)
}

impl View for RenderPipelineDescriptor {
    type V = RenderPipelineDescriptorView;

    open spec fn view(&self) -> RenderPipelineDescriptorView {
        RenderPipelineDescriptorView {
            label: match self.label {
                Some(label) => Some(label@),
                None => None,
            },
            layout: match self.layout {
                Some(layout) => Some(layout@),
                None => None,
            },
            vertex_shader: self.vertex.shader,
            vertex_buffers: buffers_of(self.vertex.buffers@),
            fragment: self.fragment,
        }
    }
}

/// Why the mesh pipeline could not be specialised.
#[derive(Clone, Copy, Debug, PartialEq, Eq, Structural)]
pub enum SpecializedMeshPipelineError {
    /// The mesh lacks a vertex attribute that the pipeline needs.
    MissingVertexAttribute,
}

} // verus!
