//! The pipeline that draws the blades: the layout of the region's uniform and the changes
//! that turn a mesh pipeline into one that reads a blade per instance.

use vstd::prelude::*;
use crate::descriptor::{
    vertex_format_size, FragmentState, PipelineLayout, RenderPipelineDescriptor,
    RenderPipelineDescriptorView, SpecializedMeshPipelineError, VertexAttribute, VertexBuffer,
    VertexBufferLayout, VertexBufferLayoutView, VertexBufferView, VertexFormat, VertexStepMode,
};
use crate::gpu::{BindGroupLayout, ShaderStages};
use crate::layout::{BLADE_STRIDE, HEIGHT_OFFSET, POSITION_OFFSET};

verus! {

/// The identifier of the shader that draws the blades.
pub const GRASS_SHADER_HANDLE: u64 = 2263343952151597128;

/// The binding of the region's uniform within its bind group.
pub const REGION_BINDING: u32 = 0;

/// What the grass pipeline is specialised from.
#[derive(Clone, Copy, Debug, PartialEq, Eq, Structural)]
pub struct GrassPipeline {
    pub shader: u64,
    pub region_outline: BindGroupLayout,
}

/// The layout of the bind group that carries the region's colours: one uniform buffer, at a
/// fixed binding, that the vertex and the fragment stage can see.
pub open spec fn region_layout() -> BindGroupLayout {
    BindGroupLayout {
        binding: REGION_BINDING,
        visibility: ShaderStages { vertex: true, fragment: true },
        has_dynamic_offset: false,
        min_binding_size: None,
    }
}

impl GrassPipeline {
    /// The pipeline as it is set up once, before the first frame.
    pub fn new() -> (pipeline: GrassPipeline)
        ensures
            pipeline == (GrassPipeline {
                shader: GRASS_SHADER_HANDLE,
                region_outline: region_layout(),
            }),
    {
        GrassPipeline {
            shader: GRASS_SHADER_HANDLE,
            region_outline: BindGroupLayout {
                binding: REGION_BINDING,
                visibility: ShaderStages { vertex: true, fragment: true },
                has_dynamic_offset: false,
                min_binding_size: None,
            },
        }
    }
}

/// The shader location of a blade's position.
pub const POSITION_LOCATION: u32 = 1;

/// The shader location of a blade's height.
pub const HEIGHT_LOCATION: u32 = 2;

/// The layout of the instance buffer: one record per instance, with the position as three
/// components at the start of the record and the height as one component behind it.
pub open spec fn instance_layout() -> VertexBufferLayoutView {
    VertexBufferLayoutView {
        array_stride: BLADE_STRIDE as u64,
        step_mode: VertexStepMode::Instance,
        attributes: seq![
            VertexAttribute {
                format: VertexFormat::Float32x3,
                offset: POSITION_OFFSET as u64,
                shader_location: POSITION_LOCATION,
            },
            VertexAttribute {
                format: VertexFormat::Float32,
                offset: HEIGHT_OFFSET as u64,
                shader_location: HEIGHT_LOCATION,
            },
        ],
    }
}

/// The bind group layouts of the grass pipeline: those of the mesh pipeline, then the
/// region's.
pub open spec fn grass_layouts(
    mesh_layouts: Option<Seq<PipelineLayout>>,
    region: BindGroupLayout,
) -> Seq<PipelineLayout> {
    match mesh_layouts {
        Some(layouts) => layouts.push(PipelineLayout::Region { layout: region }),
        None => seq![PipelineLayout::Region { layout: region }],
    }
}

/// The description of the grass pipeline, made from that of the mesh pipeline: it is
/// labelled, both stages run the grass shader, the region's layout comes behind the bind
/// group layouts, and the layout of the instance buffer behind the vertex buffers.
pub open spec fn grass_descriptor(
    pipeline: GrassPipeline,
    mesh_descriptor: RenderPipelineDescriptorView,
) -> RenderPipelineDescriptorView {
    RenderPipelineDescriptorView {
        label: Some("Grass render pipeline"@),
        layout: Some(grass_layouts(mesh_descriptor.layout, pipeline.region_outline)),
        vertex_shader: pipeline.shader,
        vertex_buffers: mesh_descriptor.vertex_buffers.push(
            VertexBufferView::Instances { layout: instance_layout() },
        ),
        fragment: Some(FragmentState { shader: pipeline.shader }),
    }
}

impl GrassPipeline {
    /// Specialises the grass pipeline from the description that the mesh pipeline gave for
    /// the same key and mesh layout. An error of the mesh pipeline is handed on.
    pub fn specialize(
        &self,
        mesh_descriptor: Result<RenderPipelineDescriptor, SpecializedMeshPipelineError>,
    ) -> (result: Result<RenderPipelineDescriptor, SpecializedMeshPipelineError>)
        requires
            mesh_descriptor is Ok ==> mesh_descriptor->Ok_0.fragment is Some,
        ensures
            mesh_descriptor is Err ==> result is Err && result->Err_0 == mesh_descriptor->Err_0,
            mesh_descriptor is Ok ==> result is Ok && result->Ok_0@ == grass_descriptor(
                *self,
                mesh_descriptor->Ok_0@,
            ),
    {
        let mut descriptor = match mesh_descriptor {
            Ok(descriptor) => descriptor,
            Err(error) => return Err(error),
        };
        let ghost before = descriptor@;
        descriptor.label = Some("Grass render pipeline".to_owned());
        descriptor.vertex.shader = self.shader;
        let mut layouts = match descriptor.layout {
            Some(layouts) => layouts,
            None => Vec::new(),
        };
        layouts.push(PipelineLayout::Region { layout: self.region_outline });
        descriptor.layout = Some(layouts);
        let mut attributes: Vec<VertexAttribute> = Vec::new();
        attributes.push(
            VertexAttribute {
                format: VertexFormat::Float32x3,
                offset: 0,
                shader_location: POSITION_LOCATION,
            },
        );
        attributes.push(
            VertexAttribute {
                format: VertexFormat::Float32,
                offset: vertex_format_size(VertexFormat::Float32x3),
                shader_location: HEIGHT_LOCATION,
            },
        );
        let instances = VertexBufferLayout {
            array_stride: BLADE_STRIDE as u64,
            step_mode: VertexStepMode::Instance,
            attributes,
        };
        assert(instances@.attributes =~= instance_layout().attributes);
        descriptor.vertex.buffers.push(VertexBuffer::Instances { layout: instances });
        descriptor.fragment = Some(FragmentState { shader: self.shader });
        proof {
            assert(descriptor@.vertex_buffers =~= before.vertex_buffers.push(
                VertexBufferView::Instances { layout: instance_layout() },
            ));
            assert(descriptor@.layout.unwrap() =~= grass_layouts(
                before.layout,
                self.region_outline,
            ));
        }
        Ok(descriptor)
    }
}

} // verus!
