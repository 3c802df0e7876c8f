use shader_playground::cache::{CachedGrassChunk, EntityCache, GrassCache};
use shader_playground::gpu::{Buffer, BufferUsages, GlobalTransform, Vec4, ONE};
use shader_playground::grass::{Grass, GrassBlade, Vec3};

fn blade(n: u32) -> GrassBlade {
    GrassBlade { position: Vec3 { x: n, y: n + 1, z: n + 2 }, height: n + 3 }
}

#[test]
fn new_cache_is_empty_and_untouched() {
    let cache = GrassCache::new();
    assert!(!cache.changed);
    assert!(!cache.contains(0));
    assert!(cache.get(7).is_none());
    assert!(cache.ids().is_empty());
}

#[test]
fn default_chunk_is_fresh() {
    let chunk = CachedGrassChunk::default();
    assert!(chunk.grass.instances.is_empty());
    assert!(chunk.uniform_bind_ground.is_none());
    assert!(chunk.grass_buffer.is_none());
    assert_eq!(chunk.transform, GlobalTransform::default());
    assert_eq!(chunk.transform.x_axis, Vec4 { x: ONE, y: 0, z: 0, w: 0 });
    assert_eq!(chunk.transform.w_axis, Vec4 { x: 0, y: 0, z: 0, w: ONE });
    assert_eq!(f32::from_bits(ONE), 1.0);
}

#[test]
fn get_or_create_creates_a_fresh_entry_once() {
    let mut cache = GrassCache::new();
    {
        let entry = cache.get_or_create(5);
        assert!(entry.grass.instances.is_empty());
        assert!(entry.grass_buffer.is_none());
        entry.grass = Grass::new(vec![blade(1), blade(2)]);
    }
    assert!(cache.contains(5));
    assert!(!cache.contains(6));
    assert!(!cache.changed);
    assert_eq!(cache.ids(), vec![5]);
    {
        let entry = cache.get_or_create(5);
        assert_eq!(entry.grass.instances, vec![blade(1), blade(2)]);
    }
    assert_eq!(cache.ids(), vec![5]);
}

#[test]
fn get_returns_what_was_written() {
    let mut cache = GrassCache::new();
    cache.get_or_create(1).grass = Grass::new(vec![blade(10)]);
    cache.get_or_create(2).grass_buffer = Some(Buffer {
        contents: vec![1, 2, 3],
        usage: BufferUsages { vertex: true, uniform: false, copy_dst: true },
    });
    assert_eq!(cache.get(1).unwrap().grass.instances, vec![blade(10)]);
    assert!(cache.get(1).unwrap().grass_buffer.is_none());
    assert_eq!(cache.get(2).unwrap().grass_buffer.as_ref().unwrap().contents, vec![1, 2, 3]);
    assert!(cache.get(3).is_none());
}

#[test]
fn ids_lists_every_entry_once() {
    let mut cache = GrassCache::new();
    for id in [9u64, 3, 7, 3, 9, 1] {
        cache.get_or_create(id);
    }
    let mut ids = cache.ids();
    ids.sort();
    assert_eq!(ids, vec![1, 3, 7, 9]);
}

#[test]
fn entity_cache_is_a_set() {
    let mut entities = EntityCache::new();
    assert!(!entities.contains(4));
    entities.insert(4);
    entities.insert(2);
    entities.insert(4);
    assert!(entities.contains(4));
    assert!(entities.contains(2));
    assert!(!entities.contains(3));
    assert_eq!(entities.entities, vec![4, 2]);
}

#[test]
fn removing_an_entry_hands_it_over() {
    let mut cache = GrassCache::new();
    cache.get_or_create(1).grass = Grass::new(vec![blade(10)]);
    cache.get_or_create(2);
    cache.changed = true;
    let evicted = cache.remove(1).unwrap();
    assert_eq!(evicted.grass.instances, vec![blade(10)]);
    assert!(!cache.contains(1));
    assert!(cache.contains(2));
    assert!(cache.changed);
    assert!(cache.remove(1).is_none());
    assert_eq!(cache.ids(), vec![2]);
}

#[test]
fn removing_a_member_keeps_the_others_in_order() {
    let mut entities = EntityCache::new();
    for id in [5u64, 3, 8, 1] {
        entities.insert(id);
    }
    entities.remove(3);
    assert_eq!(entities.entities, vec![5, 8, 1]);
    entities.remove(3);
    assert_eq!(entities.entities, vec![5, 8, 1]);
    entities.remove(1);
    entities.remove(5);
    assert_eq!(entities.entities, vec![8]);
    assert!(!entities.contains(5));
}

#[test]
fn defaults_are_empty() {
    assert!(GrassCache::default().ids().is_empty());
    assert!(!GrassCache::default().changed);
    assert!(EntityCache::default().entities.is_empty());
    assert!(Grass::default().instances.is_empty());
}
