use shader_playground::cache::EntityCache;
use shader_playground::key::MeshPipelineKey;
use shader_playground::mesh::{GpuBufferInfo, GpuMesh, IndexFormat, PrimitiveTopology};
use shader_playground::queue::{
    queue_grass_buffers, queue_view, ExtractedView, MaterialMesh, Opaque3d, PipelineVariant,
};

fn mesh(topology: PrimitiveTopology, layout: u64) -> GpuMesh {
    GpuMesh {
        buffer_info: GpuBufferInfo::Indexed { count: 9, index_format: IndexFormat::Uint32 },
        primitive_topology: topology,
        layout,
    }
}

fn entities(ids: &[u64]) -> EntityCache {
    let mut cache = EntityCache::new();
    for id in ids {
        cache.insert(*id);
    }
    cache
}

#[test]
fn view_key_has_the_bits_of_the_engine() {
    assert_eq!(MeshPipelineKey::for_view(1, false).bits, 0);
    assert_eq!(MeshPipelineKey::for_view(4, false).bits, 0x4000_0000);
    assert_eq!(MeshPipelineKey::for_view(4, true).bits, 0x4000_0002);
    assert_eq!(MeshPipelineKey::for_view(8, true).bits, 0x6000_0002);
    for samples in [1u32, 2, 4, 8] {
        for hdr in [false, true] {
            let engine = bevy::pbr::MeshPipelineKey::from_msaa_samples(samples)
                | bevy::pbr::MeshPipelineKey::from_hdr(hdr);
            assert_eq!(MeshPipelineKey::for_view(samples, hdr).bits, engine.bits());
            assert_eq!(engine.msaa_samples(), samples);
        }
    }
}

#[test]
fn mesh_key_adds_the_topology() {
    let view = MeshPipelineKey::for_view(4, true);
    assert_eq!(view.with_topology(PrimitiveTopology::PointList).bits, 0x4000_0002);
    assert_eq!(view.with_topology(PrimitiveTopology::LineList).bits, 0x4400_0002);
    assert_eq!(view.with_topology(PrimitiveTopology::LineStrip).bits, 0x4800_0002);
    assert_eq!(view.with_topology(PrimitiveTopology::TriangleList).bits, 0x4c00_0002);
    assert_eq!(view.with_topology(PrimitiveTopology::TriangleStrip).bits, 0x5000_0002);
    let engine = bevy::pbr::MeshPipelineKey::from_bits(
        view.with_topology(PrimitiveTopology::TriangleStrip).bits,
    )
    .unwrap();
    assert_eq!(
        engine.primitive_topology(),
        bevy::render::mesh::PrimitiveTopology::TriangleStrip
    );
}

#[test]
fn one_item_for_each_drawable_chunk_with_a_mesh() {
    let cacher = entities(&[1, 2, 3]);
    let candidates = vec![
        MaterialMesh {
            entity: 2,
            mesh: Some(mesh(PrimitiveTopology::TriangleList, 77)),
            distance: 1.5f32.to_bits(),
        },
        MaterialMesh {
            entity: 9,
            mesh: Some(mesh(PrimitiveTopology::TriangleList, 77)),
            distance: 2.5f32.to_bits(),
        },
        MaterialMesh { entity: 3, mesh: None, distance: 3.5f32.to_bits() },
        MaterialMesh {
            entity: 1,
            mesh: Some(mesh(PrimitiveTopology::LineList, 78)),
            distance: (-4.5f32).to_bits(),
        },
    ];
    let phase = queue_view(5, MeshPipelineKey::for_view(4, false), &cacher, &candidates);
    assert_eq!(
        phase,
        vec![
            Opaque3d {
                distance: 1.5f32.to_bits(),
                pipeline: PipelineVariant { key: MeshPipelineKey { bits: 0x4c00_0000 }, layout: 77 },
                entity: 2,
                draw_function: 5,
            },
            Opaque3d {
                distance: (-4.5f32).to_bits(),
                pipeline: PipelineVariant { key: MeshPipelineKey { bits: 0x4400_0000 }, layout: 78 },
                entity: 1,
                draw_function: 5,
            },
        ]
    );
}

#[test]
fn every_view_gets_its_own_phase() {
    let cacher = entities(&[1]);
    let candidate = |distance: f32| MaterialMesh {
        entity: 1,
        mesh: Some(mesh(PrimitiveTopology::TriangleList, 3)),
        distance: distance.to_bits(),
    };
    let views = vec![
        ExtractedView { hdr: false, material_meshes: vec![candidate(1.0)] },
        ExtractedView { hdr: true, material_meshes: vec![candidate(2.0)] },
        ExtractedView { hdr: true, material_meshes: vec![] },
    ];
    let phases = queue_grass_buffers(11, 4, &cacher, &views);
    assert_eq!(phases.len(), 3);
    assert_eq!(phases[0].len(), 1);
    assert_eq!(phases[0][0].pipeline.key.bits, 0x4c00_0000);
    assert_eq!(phases[0][0].distance, 1.0f32.to_bits());
    assert_eq!(phases[1].len(), 1);
    assert_eq!(phases[1][0].pipeline.key.bits, 0x4c00_0002);
    assert_eq!(phases[1][0].distance, 2.0f32.to_bits());
    assert_eq!(phases[1][0].draw_function, 11);
    assert!(phases[2].is_empty());
}

#[test]
fn nothing_is_queued_without_views_or_chunks() {
    assert!(queue_grass_buffers(0, 4, &entities(&[1]), &Vec::new()).is_empty());
    let views = vec![ExtractedView {
        hdr: false,
        material_meshes: vec![MaterialMesh {
            entity: 1,
            mesh: Some(mesh(PrimitiveTopology::TriangleList, 3)),
            distance: 0,
        }],
    }];
    let phases = queue_grass_buffers(0, 4, &entities(&[]), &views);
    assert_eq!(phases, vec![Vec::<Opaque3d>::new()]);
}
