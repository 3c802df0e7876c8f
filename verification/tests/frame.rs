use shader_playground::cache::{EntityCache, GrassCache};
use shader_playground::extract::{extract_grass, ExtractedGrass};
use shader_playground::gpu::{GlobalTransform, Vec4};
use shader_playground::grass::{Grass, GrassBlade, Vec3};
use shader_playground::grass_pipeline::GrassPipeline;
use shader_playground::layout::{read_blades, read_word};
use shader_playground::mesh::{GpuBufferInfo, GpuMesh, IndexFormat, PrimitiveTopology};
use shader_playground::plugin::default_grass_mesh;
use shader_playground::prepare::{prepare_instance_buffer, prepare_uniform_buffers};
use shader_playground::queue::{queue_grass_buffers, ExtractedView, MaterialMesh};
use shader_playground::render::{DrawFailure, DrawMeshInstanced, PassCommand};
use shader_playground::RegionConfig;

fn blade(x: f32, y: f32, z: f32, height: f32) -> GrassBlade {
    GrassBlade {
        position: Vec3 { x: x.to_bits(), y: y.to_bits(), z: z.to_bits() },
        height: height.to_bits(),
    }
}

fn color(r: f32, g: f32, b: f32, a: f32) -> Vec4 {
    Vec4 { x: r.to_bits(), y: g.to_bits(), z: b.to_bits(), w: a.to_bits() }
}

fn uploaded(layout: u64) -> GpuMesh {
    let mesh = default_grass_mesh();
    GpuMesh {
        buffer_info: GpuBufferInfo::Indexed {
            count: mesh.indices.unwrap().len() as u32,
            index_format: IndexFormat::Uint32,
        },
        primitive_topology: mesh.primitive_topology,
        layout,
    }
}

fn view_of(entity: u64, mesh: Option<GpuMesh>) -> Vec<ExtractedView> {
    vec![ExtractedView {
        hdr: false,
        material_meshes: vec![MaterialMesh { entity, mesh, distance: 3.0f32.to_bits() }],
    }]
}

fn chunk(entity: u64, blades: Vec<GrassBlade>, visible: bool) -> ExtractedGrass {
    ExtractedGrass { entity, grass: Grass::new(blades), transform: GlobalTransform::default(), visible }
}

#[test]
fn one_chunk_goes_through_a_whole_frame() {
    let blades = vec![blade(0.0, 0.0, 0.0, 1.0), blade(1.0, 0.0, 1.0, 2.0)];
    let region = RegionConfig {
        main_color: color(0.0, 1.0, 0.0, 1.0),
        bottom_color: color(0.0, 0.2, 0.0, 1.0),
    };
    let pipeline = GrassPipeline::new();
    let mut cache = GrassCache::new();
    let mut entities = EntityCache::new();

    extract_grass(&vec![chunk(42, blades.clone(), true)], &mut cache, &mut entities);
    prepare_uniform_buffers(&pipeline, &mut cache, &region, true);
    prepare_instance_buffer(&mut cache);
    let phases = queue_grass_buffers(7, 4, &entities, &view_of(42, Some(uploaded(5))));

    assert_eq!(phases.len(), 1);
    assert_eq!(phases[0].len(), 1);
    let item = phases[0][0];
    assert_eq!(item.entity, 42);
    assert_eq!(item.draw_function, 7);
    assert_eq!(item.pipeline.layout, 5);
    assert_eq!(item.pipeline.key.bits, 0x4c00_0000);

    let commands = DrawMeshInstanced::render(item.entity, Some(uploaded(5)), &cache).unwrap();
    assert_eq!(
        commands.last(),
        Some(&PassCommand::DrawIndexed { indices: 9, base_vertex: 0, instances: 2 })
    );
    assert_eq!(commands[0], PassCommand::SetBindGroup { index: 2, entity: 42 });

    let entry = cache.get(42).unwrap();
    let uniform = &entry.uniform_bind_ground.as_ref().unwrap().buffer.contents;
    let read: Vec<f32> = (0..8).map(|i| f32::from_bits(read_word(uniform, 4 * i))).collect();
    assert_eq!(read, vec![0.0, 1.0, 0.0, 1.0, 0.0, 0.2, 0.0, 1.0]);
    assert_eq!(read_blades(&entry.grass_buffer.as_ref().unwrap().contents), Some(blades));
}

#[test]
fn chunk_with_many_blades_is_one_item_with_as_many_instances() {
    for n in [0u32, 1, 3, 1000] {
        let blades: Vec<GrassBlade> = (0..n).map(|i| blade(i as f32, 0.0, 0.0, 1.0)).collect();
        let mut cache = GrassCache::new();
        let mut entities = EntityCache::new();
        extract_grass(&vec![chunk(1, blades, true)], &mut cache, &mut entities);
        prepare_uniform_buffers(&GrassPipeline::new(), &mut cache, &RegionConfig::default(), true);
        prepare_instance_buffer(&mut cache);
        let phases = queue_grass_buffers(0, 1, &entities, &view_of(1, Some(uploaded(0))));
        assert_eq!(phases[0].len(), 1);
        let commands = DrawMeshInstanced::render(phases[0][0].entity, Some(uploaded(0)), &cache).unwrap();
        assert_eq!(
            commands.last(),
            Some(&PassCommand::DrawIndexed { indices: 9, base_vertex: 0, instances: n })
        );
        assert_eq!(cache.get(1).unwrap().grass_buffer.as_ref().unwrap().contents.len(), 16 * n as usize);
    }
}

#[test]
fn chunk_that_is_invisible_for_a_frame_keeps_its_buffers() {
    let blades = vec![blade(0.0, 0.0, 0.0, 1.0), blade(1.0, 0.0, 1.0, 2.0), blade(2.0, 0.0, 2.0, 3.0)];
    let region = RegionConfig::default();
    let pipeline = GrassPipeline::new();
    let mut cache = GrassCache::new();
    let mut entities = EntityCache::new();

    extract_grass(&vec![chunk(9, blades.clone(), true)], &mut cache, &mut entities);
    prepare_uniform_buffers(&pipeline, &mut cache, &region, true);
    prepare_instance_buffer(&mut cache);
    let first = DrawMeshInstanced::render(9, Some(uploaded(0)), &cache).unwrap();
    let buffer = cache.get(9).unwrap().grass_buffer.as_ref().unwrap().contents.clone();
    let uniform = cache.get(9).unwrap().uniform_bind_ground.as_ref().unwrap().buffer.contents.clone();

    extract_grass(&vec![chunk(9, vec![blade(8.0, 8.0, 8.0, 8.0)], false)], &mut cache, &mut entities);
    assert!(!cache.changed);
    prepare_uniform_buffers(&pipeline, &mut cache, &region, false);
    prepare_instance_buffer(&mut cache);
    assert_eq!(cache.get(9).unwrap().grass.instances, blades);
    assert_eq!(cache.get(9).unwrap().grass_buffer.as_ref().unwrap().contents, buffer);
    assert_eq!(cache.get(9).unwrap().uniform_bind_ground.as_ref().unwrap().buffer.contents, uniform);
    assert_eq!(entities.entities, vec![9]);

    extract_grass(&Vec::new(), &mut cache, &mut entities);
    prepare_instance_buffer(&mut cache);
    let phases = queue_grass_buffers(0, 4, &entities, &view_of(9, Some(uploaded(0))));
    assert_eq!(phases[0].len(), 1);
    assert_eq!(DrawMeshInstanced::render(9, Some(uploaded(0)), &cache).unwrap(), first);
    assert_eq!(cache.get(9).unwrap().grass_buffer.as_ref().unwrap().contents, buffer);
}

#[test]
fn chunk_extracted_after_the_colours_were_uploaded_is_not_ready() {
    let mut cache = GrassCache::new();
    let mut entities = EntityCache::new();
    prepare_uniform_buffers(&GrassPipeline::new(), &mut cache, &RegionConfig::default(), true);
    extract_grass(&vec![chunk(1, vec![blade(0.0, 0.0, 0.0, 1.0)], true)], &mut cache, &mut entities);
    prepare_instance_buffer(&mut cache);
    assert_eq!(
        DrawMeshInstanced::render(1, Some(uploaded(0)), &cache),
        Err(DrawFailure::BindGroupNotReady)
    );
}

#[test]
fn chunk_whose_mesh_is_not_uploaded_is_not_queued() {
    let mut cache = GrassCache::new();
    let mut entities = EntityCache::new();
    extract_grass(&vec![chunk(1, vec![blade(0.0, 0.0, 0.0, 1.0)], true)], &mut cache, &mut entities);
    let phases = queue_grass_buffers(0, 4, &entities, &view_of(1, None));
    assert_eq!(phases.len(), 1);
    assert!(phases[0].is_empty());
}
