//! What holds across the stages of a frame, taken in their order: extraction, preparation,
//! queueing, drawing.

use vstd::prelude::*;
use crate::cache::GrassCacheView;
use crate::extract::{
    extracted_cache, extracted_entities, lemma_extraction_keeps_members_unique,
    lemma_invisible_chunks_change_nothing, prior_entry, ExtractedGrassView,
};
use crate::grass_pipeline::GrassPipeline;
use crate::layout::instance_bytes;
use crate::mesh::GpuMesh;
use crate::prepare::{
    instance_buffer, instances_prepared, region_bind_group, uniforms_prepared, with_bind_group,
    with_instance_buffer,
};
use crate::queue::{item_for, items_for, MaterialMesh};
use crate::render::{draw_commands, draw_plan, instances_drawn, DrawFailure, PassCommand};
use crate::RegionConfig;

verus! {

/// The cache after both refreshes of preparation.
pub open spec fn prepared(
    cache: GrassCacheView,
    pipeline: GrassPipeline,
    config: RegionConfig,
    config_changed: bool,
) -> GrassCacheView {
    instances_prepared(uniforms_prepared(cache, pipeline, config, config_changed))
}

/// Preparation that runs again, with nothing extracted and no colour changed in between,
/// changes nothing: every buffer and bind group keeps its contents. Until extraction touches
/// the cache again, the instance buffer of every chunk holds the records of its blades.
pub proof fn lemma_preparation_repeats(
    cache: GrassCacheView,
    pipeline: GrassPipeline,
    config: RegionConfig,
    config_changed: bool,
)
    ensures
        prepared(prepared(cache, pipeline, config, config_changed), pipeline, config, false)
            == prepared(cache, pipeline, config, config_changed),
        instances_prepared(instances_prepared(cache)) == instances_prepared(cache),
        cache.changed ==> forall|id: u64| #[trigger]
            cache.entries.dom().contains(id) ==> instances_prepared(
                cache,
            ).entries[id].grass_buffer == Some(instance_buffer(cache.entries[id])),
{
    let once = instances_prepared(cache);
    assert(!once.changed);
    let both = prepared(cache, pipeline, config, config_changed);
    assert(!both.changed);
}

/// What one chunk's entry in the cache is after the chunks of a query were extracted: where
/// the query held it visible, it has the blades and the transform of its last visible
/// occurrence and the device resources that it had before; else it is as it was.
pub proof fn lemma_extracted_entry(cache: GrassCacheView, items: Seq<ExtractedGrassView>, k: int)
    requires
        0 <= k < items.len(),
        items[k].visible,
        forall|j: int| k < j < items.len() && items[j].visible ==> items[j].entity != items[k].entity,
    ensures
        extracted_cache(cache, items).changed,
        extracted_cache(cache, items).entries.dom().contains(items[k].entity),
        extracted_cache(cache, items).entries[items[k].entity].grass == items[k].grass,
        extracted_cache(cache, items).entries[items[k].entity].transform == items[k].transform,
    decreases items.len(),
{
    let front = items.drop_last();
    let last = items.last();
    if k < items.len() - 1 {
        assert(front[k] == items[k]);
        assert forall|j: int| k < j < front.len() && front[j].visible implies front[j].entity
            != front[k].entity by {
            assert(front[j] == items[j]);
        }
        lemma_extracted_entry(cache, front, k);
        if last.visible {
            assert(items[items.len() - 1].entity != items[k].entity);
        }
    }
}

/// A chunk that the query does not hold visible is passed over: it has an entry after
/// extraction exactly if it had one before, and the entry is as it was.
pub proof fn lemma_extraction_passes_over(
    cache: GrassCacheView,
    items: Seq<ExtractedGrassView>,
    id: u64,
)
    requires
        forall|i: int| 0 <= i < items.len() && items[i].visible ==> items[i].entity != id,
    ensures
        extracted_cache(cache, items).entries.dom().contains(id) <==> cache.entries.dom().contains(
            id,
        ),
        extracted_cache(cache, items).entries[id] == cache.entries[id],
    decreases items.len(),
{
    if items.len() > 0 {
        let front = items.drop_last();
        assert forall|i: int| 0 <= i < front.len() && front[i].visible implies front[i].entity
            != id by {
            assert(front[i] == items[i]);
        }
        lemma_extraction_passes_over(cache, front, id);
        assert(items[items.len() - 1] == items.last());
    }
}

/// Extraction takes no entry out of the cache and touches no device resource: whatever
/// the query holds, every chunk keeps the instance buffer and the bind group that it had.
pub proof fn lemma_extraction_keeps_device_resources(
    cache: GrassCacheView,
    items: Seq<ExtractedGrassView>,
    id: u64,
)
    ensures
        cache.entries.dom().contains(id) ==> extracted_cache(cache, items).entries.dom().contains(
            id,
        ),
        prior_entry(extracted_cache(cache, items), id).grass_buffer == prior_entry(
            cache,
            id,
        ).grass_buffer,
        prior_entry(extracted_cache(cache, items), id).uniform_bind_ground == prior_entry(
            cache,
            id,
        ).uniform_bind_ground,
    decreases items.len(),
{
    if items.len() > 0 {
        lemma_extraction_keeps_device_resources(cache, items.drop_last(), id);
    }
}

/// The draw items of a view for one chunk: where exactly one entity of the view is the
/// chunk, and it gets a draw item, the view's phase holds that item, and no other item of
/// the phase is for the chunk.
pub proof fn lemma_one_item_per_chunk(
    draw_function: u32,
    view_key: u32,
    entities: Seq<u64>,
    candidates: Seq<MaterialMesh>,
    j: int,
) -> (m: int)
    requires
        0 <= j < candidates.len(),
        forall|i: int| 0 <= i < candidates.len() && i != j ==> candidates[i].entity != candidates[j].entity,
        item_for(draw_function, view_key, entities, candidates[j]) is Some,
    ensures
        0 <= m < items_for(draw_function, view_key, entities, candidates).len(),
        items_for(draw_function, view_key, entities, candidates)[m] == item_for(
            draw_function,
            view_key,
            entities,
            candidates[j],
        ).unwrap(),
        forall|n: int|
            0 <= n < items_for(draw_function, view_key, entities, candidates).len() && n != m
                ==> items_for(draw_function, view_key, entities, candidates)[n].entity
                != candidates[j].entity,
    decreases candidates.len(),
{
    let front = candidates.drop_last();
    let last = candidates.last();
    let before = items_for(draw_function, view_key, entities, front);
    let all = items_for(draw_function, view_key, entities, candidates);
    let id = candidates[j].entity;
    if j == candidates.len() - 1 {
        assert forall|i: int| 0 <= i < front.len() implies front[i].entity != id by {
            assert(front[i] == candidates[i]);
        }
        lemma_no_item_without_entity(draw_function, view_key, entities, front, id);
        before.len() as int
    } else {
        assert(front[j] == candidates[j]);
        assert forall|i: int| 0 <= i < front.len() && i != j implies front[i].entity
            != front[j].entity by {
            assert(front[i] == candidates[i]);
        }
        let m = lemma_one_item_per_chunk(draw_function, view_key, entities, front, j);
        assert(candidates[candidates.len() - 1].entity != id);
        m
    }
}

/// A view's phase holds no item for a chunk that is none of the view's entities.
pub proof fn lemma_no_item_without_entity(
    draw_function: u32,
    view_key: u32,
    entities: Seq<u64>,
    candidates: Seq<MaterialMesh>,
    id: u64,
)
    requires
        forall|i: int| 0 <= i < candidates.len() ==> candidates[i].entity != id,
    ensures
        forall|n: int|
            0 <= n < items_for(draw_function, view_key, entities, candidates).len()
                ==> items_for(draw_function, view_key, entities, candidates)[n].entity != id,
    decreases candidates.len(),
{
    if candidates.len() > 0 {
        let front = candidates.drop_last();
        assert forall|i: int| 0 <= i < front.len() implies front[i].entity != id by {
            assert(front[i] == candidates[i]);
        }
        lemma_no_item_without_entity(draw_function, view_key, entities, front, id);
        let before = items_for(draw_function, view_key, entities, front);
        let all = items_for(draw_function, view_key, entities, candidates);
        assert(candidates[candidates.len() - 1].entity != id);
        assert forall|n: int| 0 <= n < all.len() implies all[n].entity != id by {
            if n < before.len() {
                assert(all[n] == before[n]);
            }
        }
    }
}

/// A chunk of `n` blades that goes through a whole frame is drawn once, with `n` instances.
/// The chunk is extracted visible, the region's colours are uploaded in the frame, and the
/// chunk's mesh is uploaded. Then the phase of a view that has the chunk among its entities
/// once holds exactly one item for it, and drawing that item succeeds with commands that end
/// in a draw of as many instances as the chunk has blades.
pub proof fn lemma_frame_draws_chunk_once(
    cache: GrassCacheView,
    entities: Seq<u64>,
    items: Seq<ExtractedGrassView>,
    k: int,
    pipeline: GrassPipeline,
    config: RegionConfig,
    draw_function: u32,
    view_key: u32,
    candidates: Seq<MaterialMesh>,
    j: int,
) -> (m: int)
    requires
        0 <= k < items.len(),
        items[k].visible,
        forall|i: int| k < i < items.len() && items[i].visible ==> items[i].entity != items[k].entity,
        items[k].grass.len() <= u32::MAX,
        0 <= j < candidates.len(),
        candidates[j].entity == items[k].entity,
        candidates[j].mesh is Some,
        forall|i: int| 0 <= i < candidates.len() && i != j ==> candidates[i].entity != candidates[j].entity,
    ensures
        ({
            let phase = items_for(
                draw_function,
                view_key,
                extracted_entities(entities, items),
                candidates,
            );
            let ready = prepared(extracted_cache(cache, items), pipeline, config, true);
            let plan = draw_plan(candidates[j].mesh, ready, items[k].entity);
            &&& 0 <= m < phase.len()
            &&& phase[m].entity == items[k].entity
            &&& forall|n: int| 0 <= n < phase.len() && n != m ==> phase[n].entity != items[k].entity
            &&& plan is Ok
            &&& instances_drawn(plan->Ok_0) == Some(items[k].grass.len() as u32)
            &&& ready.entries[items[k].entity].grass_buffer.unwrap().contents == instance_bytes(
                items[k].grass,
            )
            &&& ready.entries[items[k].entity].uniform_bind_ground == Some(
                region_bind_group(pipeline, config),
            )
        }),
{
    let id = items[k].entity;
    let seen = extracted_entities(entities, items);
    let extracted = extracted_cache(cache, items);
    lemma_extraction_keeps_members_unique(entities, items);
    assert(seen.contains(id));
    lemma_extracted_entry(cache, items, k);
    let bound = uniforms_prepared(extracted, pipeline, config, true);
    assert(bound.entries.dom().contains(id));
    assert(bound.changed);
    let ready = prepared(extracted, pipeline, config, true);
    assert(ready.entries.dom().contains(id));
    assert(ready.entries[id] == with_instance_buffer(bound.entries[id]));
    assert(bound.entries[id] == with_bind_group(
        extracted.entries[id],
        region_bind_group(pipeline, config),
    ));
    let mesh = candidates[j].mesh.unwrap();
    let commands = draw_commands(mesh, id, items[k].grass.len() as u32);
    assert(draw_plan(candidates[j].mesh, ready, id) == Ok::<Seq<PassCommand>, DrawFailure>(
        commands,
    ));
    lemma_one_item_per_chunk(draw_function, view_key, seen, candidates, j)
}

/// A frame in which no chunk of the query is visible changes nothing: the cache with its
/// buffers and bind groups, the set of drawable chunks and every draw plan are as the frame
/// before left them. The cache is as preparation left it, and the colours have not changed.
pub proof fn lemma_invisible_frame_keeps_everything(
    cache: GrassCacheView,
    entities: Seq<u64>,
    items: Seq<ExtractedGrassView>,
    pipeline: GrassPipeline,
    config: RegionConfig,
    gpu_mesh: Option<GpuMesh>,
    id: u64,
)
    requires
        !cache.changed,
        forall|i: int| 0 <= i < items.len() ==> !items[i].visible,
    ensures
        prepared(extracted_cache(cache, items), pipeline, config, false) == cache,
        extracted_entities(entities, items) == entities,
        draw_plan(gpu_mesh, prepared(extracted_cache(cache, items), pipeline, config, false), id)
            == draw_plan(gpu_mesh, cache, id),
{
    lemma_invisible_chunks_change_nothing(cache, entities, items);
}

} // verus!
