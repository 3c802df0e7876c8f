use shader_playground::cache::{EntityCache, GrassCache};
use shader_playground::extract::{extract_grass, ExtractedGrass};
use shader_playground::gpu::{Buffer, BufferUsages, GlobalTransform, Vec4, ONE};
use shader_playground::grass::{Grass, GrassBlade, Vec3};

fn blade(n: u32) -> GrassBlade {
    GrassBlade { position: Vec3 { x: n, y: n + 1, z: n + 2 }, height: n + 3 }
}

fn moved(x: f32) -> GlobalTransform {
    let mut transform = GlobalTransform::default();
    transform.w_axis = Vec4 { x: x.to_bits(), y: 0, z: 0, w: ONE };
    transform
}

fn item(entity: u64, blades: Vec<GrassBlade>, x: f32, visible: bool) -> ExtractedGrass {
    ExtractedGrass { entity, grass: Grass::new(blades), transform: moved(x), visible }
}

#[test]
fn extracting_a_chunk_twice_leaves_it_in_the_set_once() {
    let mut cache = GrassCache::new();
    let mut entities = EntityCache::new();
    let blades = vec![blade(1), blade(2), blade(3)];
    let query = vec![item(10, blades.clone(), 0.0, true), item(10, blades.clone(), 0.0, true)];
    extract_grass(&query, &mut cache, &mut entities);
    assert_eq!(entities.entities, vec![10]);
    extract_grass(&query, &mut cache, &mut entities);
    assert_eq!(entities.entities, vec![10]);
    assert_eq!(cache.ids(), vec![10]);
    assert_eq!(cache.get(10).unwrap().grass.instances, blades);
}

#[test]
fn extraction_overwrites_blades_and_transform() {
    let mut cache = GrassCache::new();
    let mut entities = EntityCache::new();
    extract_grass(&vec![item(1, vec![blade(1)], 1.0, true)], &mut cache, &mut entities);
    assert!(cache.changed);
    assert_eq!(cache.get(1).unwrap().transform, moved(1.0));
    extract_grass(
        &vec![item(1, vec![blade(7), blade(8)], 2.0, true), item(2, vec![], 3.0, true)],
        &mut cache,
        &mut entities,
    );
    assert_eq!(cache.get(1).unwrap().grass.instances, vec![blade(7), blade(8)]);
    assert_eq!(cache.get(1).unwrap().transform, moved(2.0));
    assert!(cache.get(2).unwrap().grass.instances.is_empty());
    assert_eq!(cache.get(2).unwrap().transform, moved(3.0));
    assert_eq!(entities.entities, vec![1, 2]);
}

#[test]
fn the_last_visible_occurrence_wins() {
    let mut cache = GrassCache::new();
    let mut entities = EntityCache::new();
    let query = vec![
        item(4, vec![blade(1)], 1.0, true),
        item(4, vec![blade(2)], 2.0, true),
        item(4, vec![blade(3)], 3.0, false),
    ];
    extract_grass(&query, &mut cache, &mut entities);
    assert_eq!(cache.get(4).unwrap().grass.instances, vec![blade(2)]);
    assert_eq!(cache.get(4).unwrap().transform, moved(2.0));
}

#[test]
fn invisible_chunks_are_passed_over() {
    let mut cache = GrassCache::new();
    let mut entities = EntityCache::new();
    extract_grass(&vec![item(1, vec![blade(1)], 1.0, false)], &mut cache, &mut entities);
    assert!(!cache.changed);
    assert!(!cache.contains(1));
    assert!(entities.entities.is_empty());
}

#[test]
fn extraction_keeps_the_device_resources_of_an_entry() {
    let mut cache = GrassCache::new();
    let mut entities = EntityCache::new();
    cache.get_or_create(3).grass_buffer = Some(Buffer {
        contents: vec![1, 2, 3, 4],
        usage: BufferUsages { vertex: true, uniform: false, copy_dst: true },
    });
    extract_grass(&vec![item(3, vec![blade(5)], 0.0, true)], &mut cache, &mut entities);
    let entry = cache.get(3).unwrap();
    assert_eq!(entry.grass.instances, vec![blade(5)]);
    assert_eq!(entry.grass_buffer.as_ref().unwrap().contents, vec![1, 2, 3, 4]);
    assert!(entry.uniform_bind_ground.is_none());
}

#[test]
fn empty_query_changes_nothing() {
    let mut cache = GrassCache::new();
    let mut entities = EntityCache::new();
    entities.insert(8);
    extract_grass(&Vec::new(), &mut cache, &mut entities);
    assert!(!cache.changed);
    assert!(cache.ids().is_empty());
    assert_eq!(entities.entities, vec![8]);
}
