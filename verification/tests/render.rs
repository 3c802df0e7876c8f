use shader_playground::cache::GrassCache;
use shader_playground::gpu::{BindGroup, Buffer, BufferUsages};
use shader_playground::grass::{Grass, GrassBlade, Vec3};
use shader_playground::grass_pipeline::GrassPipeline;
use shader_playground::mesh::{GpuBufferInfo, GpuMesh, IndexFormat, PrimitiveTopology};
use shader_playground::render::{
    instance_count, DrawFailure, DrawMeshInstanced, PassCommand, VertexSource,
    INSTANCE_VERTEX_SLOT, MESH_VERTEX_SLOT, REGION_BIND_GROUP_SLOT,
};

fn blade(n: u32) -> GrassBlade {
    GrassBlade { position: Vec3 { x: n, y: n, z: n }, height: n }
}

fn buffer() -> Buffer {
    Buffer { contents: vec![0; 16], usage: BufferUsages { vertex: true, uniform: false, copy_dst: true } }
}

fn group() -> BindGroup {
    BindGroup {
        layout: GrassPipeline::new().region_outline,
        binding: 0,
        buffer: Buffer {
            contents: vec![0; 32],
            usage: BufferUsages { vertex: false, uniform: true, copy_dst: true },
        },
        offset: 0,
        size: None,
    }
}

fn indexed() -> GpuMesh {
    GpuMesh {
        buffer_info: GpuBufferInfo::Indexed { count: 9, index_format: IndexFormat::Uint32 },
        primitive_topology: PrimitiveTopology::TriangleList,
        layout: 1,
    }
}

fn ready_cache(id: u64, blades: u32) -> GrassCache {
    let mut cache = GrassCache::new();
    let entry = cache.get_or_create(id);
    entry.grass = Grass::new((0..blades).map(blade).collect());
    entry.grass_buffer = Some(buffer());
    entry.uniform_bind_ground = Some(group());
    cache
}

#[test]
fn slots_follow_the_convention() {
    assert_eq!(REGION_BIND_GROUP_SLOT, 2);
    assert_eq!(MESH_VERTEX_SLOT, 0);
    assert_eq!(INSTANCE_VERTEX_SLOT, 1);
}

#[test]
fn indexed_mesh_is_drawn_with_one_instance_per_blade() {
    let cache = ready_cache(6, 5);
    let commands = DrawMeshInstanced::render(6, Some(indexed()), &cache);
    assert_eq!(
        commands,
        Ok(vec![
            PassCommand::SetBindGroup { index: 2, entity: 6 },
            PassCommand::SetVertexBuffer { slot: 0, source: VertexSource::MeshVertices },
            PassCommand::SetVertexBuffer { slot: 1, source: VertexSource::ChunkInstances { entity: 6 } },
            PassCommand::SetIndexBuffer { offset: 0, index_format: IndexFormat::Uint32 },
            PassCommand::DrawIndexed { indices: 9, base_vertex: 0, instances: 5 },
        ])
    );
}

#[test]
fn mesh_without_indices_is_drawn_by_its_vertices() {
    let cache = ready_cache(6, 3);
    let mesh = GpuMesh {
        buffer_info: GpuBufferInfo::NonIndexed { vertex_count: 4 },
        primitive_topology: PrimitiveTopology::TriangleStrip,
        layout: 1,
    };
    let commands = DrawMeshInstanced::render(6, Some(mesh), &cache);
    assert_eq!(
        commands,
        Ok(vec![
            PassCommand::SetBindGroup { index: 2, entity: 6 },
            PassCommand::SetVertexBuffer { slot: 0, source: VertexSource::MeshVertices },
            PassCommand::SetVertexBuffer { slot: 1, source: VertexSource::ChunkInstances { entity: 6 } },
            PassCommand::Draw { vertices: 4, instances: 3 },
        ])
    );
}

#[test]
fn chunk_without_blades_is_drawn_with_no_instances() {
    let cache = ready_cache(1, 0);
    let commands = DrawMeshInstanced::render(1, Some(indexed()), &cache).unwrap();
    assert_eq!(
        commands.last(),
        Some(&PassCommand::DrawIndexed { indices: 9, base_vertex: 0, instances: 0 })
    );
}

#[test]
fn missing_mesh_is_reported_first() {
    let cache = GrassCache::new();
    assert_eq!(DrawMeshInstanced::render(1, None, &cache), Err(DrawFailure::MeshNotReady));
    assert_eq!(
        DrawMeshInstanced::render(1, None, &ready_cache(1, 1)),
        Err(DrawFailure::MeshNotReady)
    );
}

#[test]
fn chunk_that_is_not_cached_is_reported() {
    let cache = ready_cache(1, 1);
    assert_eq!(
        DrawMeshInstanced::render(2, Some(indexed()), &cache),
        Err(DrawFailure::ChunkNotCached)
    );
}

#[test]
fn chunk_without_bind_group_is_reported() {
    let mut cache = ready_cache(1, 1);
    cache.get_or_create(1).uniform_bind_ground = None;
    assert_eq!(
        DrawMeshInstanced::render(1, Some(indexed()), &cache),
        Err(DrawFailure::BindGroupNotReady)
    );
    cache.get_or_create(1).grass_buffer = None;
    assert_eq!(
        DrawMeshInstanced::render(1, Some(indexed()), &cache),
        Err(DrawFailure::BindGroupNotReady)
    );
}

#[test]
fn chunk_without_instance_buffer_is_reported() {
    let mut cache = ready_cache(1, 1);
    cache.get_or_create(1).grass_buffer = None;
    assert_eq!(
        DrawMeshInstanced::render(1, Some(indexed()), &cache),
        Err(DrawFailure::BufferNotReady)
    );
}

#[test]
fn instance_count_is_the_number_of_blades_where_one_call_can_draw_them() {
    assert_eq!(instance_count(0), Some(0));
    assert_eq!(instance_count(5), Some(5));
    assert_eq!(instance_count(u32::MAX as usize), Some(u32::MAX));
    if usize::BITS > 32 {
        assert_eq!(instance_count(u32::MAX as usize + 1), None);
        assert_eq!(instance_count(usize::MAX), None);
    }
}
