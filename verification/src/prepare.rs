//! Preparation: turns what the cache holds into the buffers and bind groups that drawing
//! binds, and only when something changed.

use vstd::prelude::*;
use crate::cache::{CachedGrassChunkView, GrassCache, GrassCacheView};
use crate::gpu::{BindGroup, BindGroupView, Buffer, BufferUsages, BufferView, Vec4};
use crate::grass_pipeline::{GrassPipeline, REGION_BINDING};
use crate::layout::{instance_bytes, uniform_bytes, write_blades, write_colors};
use crate::RegionConfig;

verus! {

/// The region's colours as the shader declares them.
#[derive(Clone, Copy, Debug, PartialEq, Eq, Structural)]
pub struct ShaderRegionConfig {
    pub main_color: Vec4,
    pub bottom_color: Vec4,
}

impl ShaderRegionConfig {
    /// The shader's view of a region's colours: the same two colours.
    pub fn from(config: &RegionConfig) -> (shader_config: ShaderRegionConfig)
        ensures
            shader_config.main_color == config.main_color,
            shader_config.bottom_color == config.bottom_color,
    {
        ShaderRegionConfig { main_color: config.main_color, bottom_color: config.bottom_color }
    }

    /// The bytes of the uniform block.
    pub fn bytes_of(&self) -> (bytes: Vec<u8>)
        ensures
            bytes@ == uniform_bytes(self.main_color, self.bottom_color),
    {
        write_colors(self.main_color, self.bottom_color)
    }
}

/// How an instance buffer may be used: as a source of per-instance attributes and as the
/// destination of a copy.
pub open spec fn instance_usage() -> BufferUsages {
    BufferUsages { vertex: true, uniform: false, copy_dst: true }
}

/// How the uniform buffer may be used: as a uniform and as the destination of a copy.
pub open spec fn uniform_usage() -> BufferUsages {
    BufferUsages { vertex: false, uniform: true, copy_dst: true }
}

/// The instance buffer of a chunk: one record per blade.
pub open spec fn instance_buffer(entry: CachedGrassChunkView) -> BufferView {
    BufferView { contents: instance_bytes(entry.grass), usage: instance_usage() }
}

/// An entry after its instance buffer was made anew from its blades.
pub open spec fn with_instance_buffer(entry: CachedGrassChunkView) -> CachedGrassChunkView {
    CachedGrassChunkView { grass_buffer: Some(instance_buffer(entry)), ..entry }
}

/// The cache after the refresh of the instance buffers: untouched where extraction has not
/// touched it; else every entry has a new buffer and the flag is lowered.
pub open spec fn instances_prepared(cache: GrassCacheView) -> GrassCacheView {
    if !cache.changed {
        cache
    } else {
        GrassCacheView {
            entries: cache.entries.map_values(|e: CachedGrassChunkView| with_instance_buffer(e)),
            changed: false,
        }
    }
}

/// The bind group that carries a region's colours.
pub open spec fn region_bind_group(pipeline: GrassPipeline, config: RegionConfig) -> BindGroupView {
    BindGroupView {
        layout: pipeline.region_outline,
        binding: REGION_BINDING,
        buffer: BufferView {
            contents: uniform_bytes(config.main_color, config.bottom_color),
            usage: uniform_usage(),
        },
        offset: 0,
        size: None,
    }
}

/// An entry after it was given a bind group.
pub open spec fn with_bind_group(
    entry: CachedGrassChunkView,
    group: BindGroupView,
) -> CachedGrassChunkView {
    CachedGrassChunkView { uniform_bind_ground: Some(group), ..entry }
}

/// The cache after the refresh of the uniforms: untouched where the region's colours have
/// not changed; else every entry carries the one bind group made from them.
pub open spec fn uniforms_prepared(
    cache: GrassCacheView,
    pipeline: GrassPipeline,
    config: RegionConfig,
    config_changed: bool,
) -> GrassCacheView {
    if !config_changed {
        cache
    } else {
        GrassCacheView {
            entries: cache.entries.map_values(
                |e: CachedGrassChunkView| with_bind_group(e, region_bind_group(pipeline, config)),
            ),
            changed: cache.changed,
        }
    }
}

/// Makes the instance buffer of every cached chunk anew, if extraction touched the cache
/// since the last refresh.
pub fn prepare_instance_buffer(cache: &mut GrassCache)
    ensures
        final(cache)@ == instances_prepared(old(cache)@),
{
    if !cache.changed {
        return;
    }
    let ids = cache.ids();
    let ghost before = cache@.entries;
    let mut i: usize = 0;
    while i < ids.len()
        invariant
            i <= ids.len(),
            ids@.no_duplicates(),
            ids@.to_set() == before.dom(),
            cache@.changed,
            cache@.entries.dom() == before.dom(),
            forall|j: int|
                0 <= j < i ==> #[trigger] cache@.entries[ids@[j]] == with_instance_buffer(
                    before[ids@[j]],
                ),
            forall|j: int| i <= j < ids.len() ==> #[trigger] cache@.entries[ids@[j]] == before[ids@[j]],
        decreases ids.len() - i,
    {
        let id = ids[i];
        let ghost during = cache@.entries;
        assert(ids@.to_set().contains(id));
        let entry = cache.get_or_create(id);
        let contents = write_blades(&entry.grass.instances);
        entry.grass_buffer = Some(Buffer {
            contents,
            usage: BufferUsages { vertex: true, uniform: false, copy_dst: true },
        });
        proof {
            assert(cache@.entries == during.insert(id, with_instance_buffer(before[id])));
            assert(cache@.entries.dom() =~= before.dom());
        }
        i += 1;
    }
    cache.changed = false;
    proof {
        let after = instances_prepared(old(cache)@);
        assert forall|id: u64| before.dom().contains(id) implies #[trigger] cache@.entries[id]
            == after.entries[id] by {
            assert(ids@.to_set().contains(id));
            let j = choose|j: int| 0 <= j < ids@.len() && ids@[j] == id;
            assert(cache@.entries[ids@[j]] == with_instance_buffer(before[ids@[j]]));
        }
        assert(cache@.entries =~= after.entries);
    }
}

/// Makes the uniform buffer and its bind group from the region's colours and hands the bind
/// group to every cached chunk, if the colours changed since the last refresh.
pub fn prepare_uniform_buffers(
    pipeline: &GrassPipeline,
    cache: &mut GrassCache,
    region_config: &RegionConfig,
    config_changed: bool,
)
    ensures
        final(cache)@ == uniforms_prepared(old(cache)@, *pipeline, *region_config, config_changed),
{
    if !config_changed {
        return;
    }
    let shader_config = ShaderRegionConfig::from(region_config);
    let color_buffer = Buffer {
        contents: shader_config.bytes_of(),
        usage: BufferUsages { vertex: false, uniform: true, copy_dst: true },
    };
    let bind_group = BindGroup {
        layout: pipeline.region_outline,
        binding: REGION_BINDING,
        buffer: color_buffer,
        offset: 0,
        size: None,
    };
    let ghost group = region_bind_group(*pipeline, *region_config);
    assert(bind_group@ == group);

    let ids = cache.ids();
    let ghost before = cache@.entries;
    let mut i: usize = 0;
    while i < ids.len()
        invariant
            i <= ids.len(),
            ids@.no_duplicates(),
            ids@.to_set() == before.dom(),
            bind_group@ == group,
            cache@.changed == old(cache)@.changed,
            cache@.entries.dom() == before.dom(),
            forall|j: int|
                0 <= j < i ==> #[trigger] cache@.entries[ids@[j]] == with_bind_group(
                    before[ids@[j]],
                    group,
                ),
            forall|j: int| i <= j < ids.len() ==> #[trigger] cache@.entries[ids@[j]] == before[ids@[j]],
        decreases ids.len() - i,
    {
        let id = ids[i];
        let ghost during = cache@.entries;
        assert(ids@.to_set().contains(id));
        let entry = cache.get_or_create(id);
        entry.uniform_bind_ground = Some(bind_group.clone());
        proof {
            assert(cache@.entries == during.insert(id, with_bind_group(before[id], group)));
            assert(cache@.entries.dom() =~= before.dom());
        }
        i += 1;
    }
    proof {
        let after = uniforms_prepared(old(cache)@, *pipeline, *region_config, config_changed);
        assert forall|id: u64| before.dom().contains(id) implies #[trigger] cache@.entries[id]
            == after.entries[id] by {
            assert(ids@.to_set().contains(id));
            let j = choose|j: int| 0 <= j < ids@.len() && ids@[j] == id;
            assert(cache@.entries[ids@[j]] == with_bind_group(before[ids@[j]], group));
        }
        assert(cache@.entries =~= after.entries);
    }
}

} // verus!
