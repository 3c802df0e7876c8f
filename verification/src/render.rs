//! Drawing: the commands that draw one chunk with a single instanced call.

use vstd::prelude::*;
use crate::cache::{GrassCache, GrassCacheView};
use crate::mesh::{GpuBufferInfo, GpuMesh, IndexFormat};

verus! {

/// The bind group slot of the region's uniform. The slots below it carry the data of the
/// view and of the mesh.
pub const REGION_BIND_GROUP_SLOT: u32 = 2;

/// The vertex buffer slot of the base mesh.
pub const MESH_VERTEX_SLOT: u32 = 0;

/// The vertex buffer slot of the blades.
pub const INSTANCE_VERTEX_SLOT: u32 = 1;

/// The buffer that a vertex buffer slot is bound to.
#[derive(Clone, Copy, Debug, PartialEq, Eq, Structural)]
pub enum VertexSource {
    /// The vertices of the base mesh.
    MeshVertices,
    /// The instance buffer of the chunk that the cache holds.
    ChunkInstances { entity: u64 },
}

/// One command for the render pass.
#[derive(Clone, Copy, Debug, PartialEq, Eq, Structural)]
pub enum PassCommand {
    /// Binds the uniform bind group that the cache holds for the chunk.
    SetBindGroup { index: u32, entity: u64 },
    /// Binds a whole buffer to a vertex buffer slot.
    SetVertexBuffer { slot: u32, source: VertexSource },
    /// Binds the whole index buffer of the base mesh.
    SetIndexBuffer { offset: u64, index_format: IndexFormat },
    /// Draws the indices from the first to `indices`, once for each instance.
    DrawIndexed { indices: u32, base_vertex: i32, instances: u32 },
    /// Draws the vertices from the first to `vertices`, once for each instance.
    Draw { vertices: u32, instances: u32 },
}

/// Why a chunk is not drawn in this frame.
#[derive(Clone, Copy, Debug, PartialEq, Eq, Structural)]
pub enum DrawFailure {
    /// The base mesh is not uploaded.
    MeshNotReady,
    /// The cache has no entry for the chunk.
    ChunkNotCached,
    /// The chunk has no uniform bind group yet.
    BindGroupNotReady,
    /// The chunk has no instance buffer yet.
    BufferNotReady,
    /// The chunk has more blades than one call can draw.
    TooManyBlades,
}

/// The commands that bind the buffers of a chunk and its mesh and draw `instances` blades.
pub open spec fn draw_commands(mesh: GpuMesh, entity: u64, instances: u32) -> Seq<PassCommand> {
    let bind = seq![
        PassCommand::SetBindGroup { index: REGION_BIND_GROUP_SLOT, entity },
        PassCommand::SetVertexBuffer { slot: MESH_VERTEX_SLOT, source: VertexSource::MeshVertices },
        PassCommand::SetVertexBuffer {
            slot: INSTANCE_VERTEX_SLOT,
            source: VertexSource::ChunkInstances { entity },
        },
    ];
    match mesh.buffer_info {
        GpuBufferInfo::Indexed { count, index_format } => bind + seq![
            PassCommand::SetIndexBuffer { offset: 0, index_format },
            PassCommand::DrawIndexed { indices: count, base_vertex: 0, instances },
        ],
        GpuBufferInfo::NonIndexed { vertex_count } => bind + seq![
            PassCommand::Draw { vertices: vertex_count, instances },
        ],
    }
}

/// What drawing a chunk comes to: the commands of one call that draws as many instances as
/// the chunk has blades, or the first reason, in the order of [`DrawFailure`], why it is not
/// drawn.
pub open spec fn draw_plan(
    gpu_mesh: Option<GpuMesh>,
    cache: GrassCacheView,
    item: u64,
) -> Result<Seq<PassCommand>, DrawFailure> {
    if gpu_mesh is None {
        Err(DrawFailure::MeshNotReady)
    } else if !cache.entries.dom().contains(item) {
        Err(DrawFailure::ChunkNotCached)
    } else if cache.entries[item].uniform_bind_ground is None {
        Err(DrawFailure::BindGroupNotReady)
    } else if cache.entries[item].grass_buffer is None {
        Err(DrawFailure::BufferNotReady)
    } else {
        match instances_for(cache.entries[item].grass.len()) {
            Some(instances) => Ok(draw_commands(gpu_mesh.unwrap(), item, instances)),
            None => Err(DrawFailure::TooManyBlades),
        }
    }
}

/// The number of instances that a list of commands draws, if it ends in a draw.
pub open spec fn instances_drawn(commands: Seq<PassCommand>) -> Option<u32> {
    if commands.len() == 0 {
        None
    } else {
        match commands.last() {
            PassCommand::DrawIndexed { instances, .. } => Some(instances),
            PassCommand::Draw { instances, .. } => Some(instances),
            _ => None,
        }
    }
}

/// The number of instances that a chunk of so many blades is drawn with, where one call
/// can draw them.
pub open spec fn instances_for(blades: nat) -> Option<u32> {
    if blades > u32::MAX {
        None
    } else {
        Some(blades as u32)
    }
}

/// Computes `instances_for`.
pub fn instance_count(blades: usize) -> (count: Option<u32>)
    ensures
        count == instances_for(blades as nat),
{
    if blades > u32::MAX as usize {
        None
    } else {
        Some(blades as u32)
    }
}

/// The command that draws the blades of a chunk.
pub struct DrawMeshInstanced;

impl DrawMeshInstanced {
    /// Plans the draw of one queued chunk. A chunk that is not ready is reported, not drawn.
    pub fn render(item: u64, gpu_mesh: Option<GpuMesh>, cache: &GrassCache) -> (result: Result<
        Vec<PassCommand>,
        DrawFailure,
    >)
        ensures
            result is Ok <==> draw_plan(gpu_mesh, cache@, item) is Ok,
            result is Ok ==> result->Ok_0@ == draw_plan(gpu_mesh, cache@, item)->Ok_0,
            result is Err ==> result->Err_0 == draw_plan(gpu_mesh, cache@, item)->Err_0,
    {
        let gpu_mesh = match gpu_mesh {
            Some(mesh) => mesh,
            None => return Err(DrawFailure::MeshNotReady),
        };
        let chunk = match cache.get(item) {
            Some(chunk) => chunk,
            None => return Err(DrawFailure::ChunkNotCached),
        };
        if chunk.uniform_bind_ground.is_none() {
            return Err(DrawFailure::BindGroupNotReady);
        }
        if chunk.grass_buffer.is_none() {
            return Err(DrawFailure::BufferNotReady);
        }
        let grass_blade_count: u32 = match instance_count(chunk.grass.instances.len()) {
            Some(count) => count,
            None => return Err(DrawFailure::TooManyBlades),
        };
        let mut commands: Vec<PassCommand> = Vec::new();
        commands.push(PassCommand::SetBindGroup { index: REGION_BIND_GROUP_SLOT, entity: item });
        commands.push(
            PassCommand::SetVertexBuffer {
                slot: MESH_VERTEX_SLOT,
                source: VertexSource::MeshVertices,
            },
        );
        commands.push(
            PassCommand::SetVertexBuffer {
                slot: INSTANCE_VERTEX_SLOT,
                source: VertexSource::ChunkInstances { entity: item },
            },
        );
        match gpu_mesh.buffer_info {
            GpuBufferInfo::Indexed { count, index_format } => {
                commands.push(PassCommand::SetIndexBuffer { offset: 0, index_format });
                commands.push(
                    PassCommand::DrawIndexed {
                        indices: count,
                        base_vertex: 0,
                        instances: grass_blade_count,
                    },
                );
            },
            GpuBufferInfo::NonIndexed { vertex_count } => {
                commands.push(
                    PassCommand::Draw { vertices: vertex_count, instances: grass_blade_count },
                );
            },
        }
        assert(commands@ =~= draw_commands(gpu_mesh, item, grass_blade_count));
        Ok(commands)
    }
}

} // verus!
