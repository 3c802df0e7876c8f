//! Extraction: copies the chunks that changed in the simulation, and are visible, into the
//! renderer's cache.

use vstd::prelude::*;
use crate::cache::{
    lemma_with_entity_no_duplicates, with_entity, CachedGrassChunkView, EntityCache, GrassCache,
    GrassCacheView,
};
use crate::gpu::GlobalTransform;
use crate::grass::{Grass, GrassBlade};

verus! {

/// One chunk of the simulation that was added or changed since the last frame.
#[derive(Debug)]
pub struct ExtractedGrass {
    pub entity: u64,
    pub grass: Grass,
    pub transform: GlobalTransform,
    pub visible: bool,
}

/// The mathematical value of an [`ExtractedGrass`].
pub struct ExtractedGrassView {
    pub entity: u64,
    pub grass: Seq<GrassBlade>,
    pub transform: GlobalTransform,
    pub visible: bool,
}

impl View for ExtractedGrass {
    type V = ExtractedGrassView;

    open spec fn view(&self) -> ExtractedGrassView {
        ExtractedGrassView {
            entity: self.entity,
            grass: self.grass@,
            transform: self.transform,
            visible: self.visible,
        }
    }
}

/// The values of the chunks of a query, in its order.
pub open spec fn items_of(query: Seq<ExtractedGrass>) -> Seq<ExtractedGrassView> {
    Seq::new(query.len(), |i: int| query[i]@)
}

/// The entry that a chunk has before it is extracted: its own, or a fresh one.
pub open spec fn prior_entry(cache: GrassCacheView, id: u64) -> CachedGrassChunkView {
    if cache.entries.dom().contains(id) {
        cache.entries[id]
    } else {
        CachedGrassChunkView::fresh()
    }
}

/// The cache after one chunk was extracted. A chunk that is not visible leaves it as it
/// was. A visible one has its blades and its transform overwritten, keeps the device
/// resources it had, and raises the cache's flag.
pub open spec fn cache_after(cache: GrassCacheView, item: ExtractedGrassView) -> GrassCacheView {
    if !item.visible {
        cache
    } else {
        GrassCacheView {
            entries: cache.entries.insert(
                item.entity,
                CachedGrassChunkView {
                    grass: item.grass,
                    transform: item.transform,
                    ..prior_entry(cache, item.entity)
                },
            ),
            changed: true,
        }
    }
}

/// The cache after the chunks of a query were extracted, one after the other.
pub open spec fn extracted_cache(
    cache: GrassCacheView,
    items: Seq<ExtractedGrassView>,
) -> GrassCacheView
    decreases items.len(),
{
    if items.len() == 0 {
        cache
    } else {
        cache_after(extracted_cache(cache, items.drop_last()), items.last())
    }
}

/// The set of drawable chunks after one chunk was extracted: a visible one is a member.
pub open spec fn entities_after(entities: Seq<u64>, item: ExtractedGrassView) -> Seq<u64> {
    if item.visible {
        with_entity(entities, item.entity)
    } else {
        entities
    }
}

/// The set of drawable chunks after the chunks of a query were extracted.
pub open spec fn extracted_entities(
    entities: Seq<u64>,
    items: Seq<ExtractedGrassView>,
) -> Seq<u64>
    decreases items.len(),
{
    if items.len() == 0 {
        entities
    } else {
        entities_after(extracted_entities(entities, items.drop_last()), items.last())
    }
}

/// Extracts the chunks of a query into the cache and into the set of drawable chunks.
pub fn extract_grass(
    grass_query: &Vec<ExtractedGrass>,
    grass_cache: &mut GrassCache,
    entity_cache: &mut EntityCache,
)
    ensures
        final(grass_cache)@ == extracted_cache(old(grass_cache)@, items_of(grass_query@)),
        final(entity_cache)@ == extracted_entities(old(entity_cache)@, items_of(grass_query@)),
        old(entity_cache)@.no_duplicates() ==> final(entity_cache)@.no_duplicates(),
{
    let ghost items = items_of(grass_query@);
    let mut i: usize = 0;
    while i < grass_query.len()
        invariant
            i <= grass_query.len(),
            items == items_of(grass_query@),
            grass_cache@ == extracted_cache(old(grass_cache)@, items.take(i as int)),
            entity_cache@ == extracted_entities(old(entity_cache)@, items.take(i as int)),
        decreases grass_query.len() - i,
    {
        let item = &grass_query[i];
        proof {
            assert(items.take(i + 1).drop_last() =~= items.take(i as int));
            assert(items.take(i + 1).last() == item@);
        }
        if item.visible {
            let ghost during = grass_cache@;
            let entry = grass_cache.get_or_create(item.entity);
            entry.grass = item.grass.clone();
            entry.transform = item.transform;
            grass_cache.changed = true;
            entity_cache.insert(item.entity);
            assert(grass_cache@.entries =~= cache_after(during, item@).entries);
        }
        i += 1;
    }
    proof {
        assert(items.take(i as int) =~= items);
        lemma_extraction_keeps_members_unique(old(entity_cache)@, items);
    }
}

/// However often a chunk is extracted, it is in the set of drawable chunks once: extraction
/// never makes a member occur twice, keeps every member, and makes every visible chunk of
/// the query a member.
pub proof fn lemma_extraction_keeps_members_unique(
    entities: Seq<u64>,
    items: Seq<ExtractedGrassView>,
)
    ensures
        entities.no_duplicates() ==> extracted_entities(entities, items).no_duplicates(),
        forall|id: u64| entities.contains(id) ==> extracted_entities(entities, items).contains(id),
        forall|i: int|
            0 <= i < items.len() && items[i].visible ==> extracted_entities(
                entities,
                items,
            ).contains(#[trigger] items[i].entity),
    decreases items.len(),
{
    if items.len() > 0 {
        let front = items.drop_last();
        let last = items.last();
        let mid = extracted_entities(entities, front);
        let all = extracted_entities(entities, items);
        lemma_extraction_keeps_members_unique(entities, front);
        if last.visible {
            if entities.no_duplicates() {
                lemma_with_entity_no_duplicates(mid, last.entity);
            }
            assert forall|id: u64| mid.contains(id) implies all.contains(id) by {
                if !mid.contains(last.entity) {
                    let k = choose|k: int| 0 <= k < mid.len() && mid[k] == id;
                    assert(all[k] == id);
                }
            }
            if !mid.contains(last.entity) {
                assert(all[mid.len() as int] == last.entity);
            }
        }
        assert forall|i: int| 0 <= i < items.len() && items[i].visible implies all.contains(
            #[trigger] items[i].entity,
        ) by {
            if i < front.len() {
                assert(front[i] == items[i]);
                assert(mid.contains(front[i].entity));
            }
        }
    }
}

/// Chunks that are not visible are passed over: a query without a visible chunk leaves the
/// cache, its flag and the set of drawable chunks exactly as they were.
pub proof fn lemma_invisible_chunks_change_nothing(
    cache: GrassCacheView,
    entities: Seq<u64>,
    items: Seq<ExtractedGrassView>,
)
    requires
        forall|i: int| 0 <= i < items.len() ==> !items[i].visible,
    ensures
        extracted_cache(cache, items) == cache,
        extracted_entities(entities, items) == entities,
    decreases items.len(),
{
    if items.len() > 0 {
        lemma_invisible_chunks_change_nothing(cache, entities, items.drop_last());
    }
}

} // verus!
