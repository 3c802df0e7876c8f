//! The render-side cache of chunks, keyed by the identifier of the entity that owns each.

use vstd::prelude::*;
use crate::gpu::{BindGroup, BindGroupView, Buffer, BufferView, GlobalTransform};
use crate::grass::{Grass, GrassBlade};

verus! {

/// What the renderer keeps of one chunk between frames.
#[derive(Debug)]
pub struct CachedGrassChunk {
    pub grass: Grass,
    pub uniform_bind_ground: Option<BindGroup>,
    pub grass_buffer: Option<Buffer>,
    pub transform: GlobalTransform,
}

/// The mathematical value of a [`CachedGrassChunk`].
pub struct CachedGrassChunkView {
    pub grass: Seq<GrassBlade>,
    pub uniform_bind_ground: Option<BindGroupView>,
    pub grass_buffer: Option<BufferView>,
    pub transform: GlobalTransform,
}

impl View for CachedGrassChunk {
    type V = CachedGrassChunkView;

    open spec fn view(&self) -> CachedGrassChunkView {
        CachedGrassChunkView {
            grass: self.grass@,
            uniform_bind_ground: match self.uniform_bind_ground {
                Some(g) => Some(g@),
                None => None,
            },
            grass_buffer: match self.grass_buffer {
                Some(b) => Some(b@),
                None => None,
            },
            transform: self.transform,
        }
    }
}

impl CachedGrassChunkView {
    /// An entry as it is first created: no blades, no device resources, placed at the origin.
    pub open spec fn fresh() -> CachedGrassChunkView {
        CachedGrassChunkView {
            grass: Seq::empty(),
            uniform_bind_ground: None,
            grass_buffer: None,
            transform: GlobalTransform::identity(),
        }
    }
}

impl Default for CachedGrassChunk {
    fn default() -> (chunk: CachedGrassChunk)
        ensures
            chunk@ == CachedGrassChunkView::fresh(),
    {
        CachedGrassChunk {
            grass: Grass::new(Vec::new()),
            uniform_bind_ground: None,
            grass_buffer: None,
            transform: GlobalTransform::default(),
        }
    }
}

/// The table of cached chunks: a `HashMap` of `bevy::utils`, from the identifier of an entity
/// to the chunk cached for it. What it holds is known only through [`table_entries`].
#[verifier::external_body]
pub struct ChunkTable {
    inner: bevy::utils::HashMap<u64, CachedGrassChunk>,
}

/// The entries that a table holds.
pub uninterp spec fn table_entries(table: ChunkTable) -> Map<u64, CachedGrassChunkView>;

/// `HashMap::default` of `bevy::utils`: a map without entries.
#[verifier::external_body]
fn table_new() -> (table: ChunkTable)
    ensures
        table_entries(table).dom() == Set::<u64>::empty(),
{
    ChunkTable { inner: bevy::utils::HashMap::default() }
}

/// `HashMap::contains_key` of `bevy::utils`: whether the key has an entry.
#[verifier::external_body]
fn table_contains_key(table: &ChunkTable, id: u64) -> (found: bool)
    ensures
        found == table_entries(*table).dom().contains(id),
{
    table.inner.contains_key(&id)
}

/// `HashMap::get` of `bevy::utils`: the entry of the key, if it has one.
#[verifier::external_body]
fn table_get(table: &ChunkTable, id: u64) -> (entry: Option<&CachedGrassChunk>)
    ensures
        match entry {
            Some(chunk) => table_entries(*table).dom().contains(id) && chunk@ == table_entries(
                *table,
            )[id],
            None => !table_entries(*table).dom().contains(id),
        },
{
    table.inner.get(&id)
}

/// `HashMap::entry` of `bevy::utils` followed by `Entry::or_default`: the entry of the key,
/// created with the default value where the key had none. Every other entry stays as it was,
/// and what the caller writes through the reference is what the table then holds under the key.
#[verifier::external_body]
fn table_entry_or_default(table: &mut ChunkTable, id: u64) -> (entry: &mut CachedGrassChunk)
    ensures
        (*entry)@ == (if table_entries(*old(table)).dom().contains(id) {
            table_entries(*old(table))[id]
        } else {
            CachedGrassChunkView::fresh()
        }),
        table_entries(*final(table)) == table_entries(*old(table)).insert(id, (*final(entry))@),
{
    table.inner.entry(id).or_default()
}

/// `HashMap::remove` of `bevy::utils`: takes the entry of the key out of the map and hands it
/// over, if the key has one. Every other entry stays as it was.
#[verifier::external_body]
fn table_remove(table: &mut ChunkTable, id: u64) -> (entry: Option<CachedGrassChunk>)
    ensures
        table_entries(*final(table)) == table_entries(*old(table)).remove(id),
        match entry {
            Some(chunk) => table_entries(*old(table)).dom().contains(id) && chunk@
                == table_entries(*old(table))[id],
            None => !table_entries(*old(table)).dom().contains(id),
        },
{
    table.inner.remove(&id)
}

/// `HashMap::keys` of `bevy::utils`, copied into a vector: every key once, in no stated order.
#[verifier::external_body]
fn table_keys(table: &ChunkTable) -> (ids: Vec<u64>)
    ensures
        ids@.no_duplicates(),
        ids@.to_set() == table_entries(*table).dom(),
{
    table.inner.keys().copied().collect()
}

/// The cache of every chunk that has been extracted, with the flag that extraction raises
/// when it touches the cache and that the refresh of the instance buffers lowers.
pub struct GrassCache {
    pub data: ChunkTable,
    pub changed: bool,
}

/// The mathematical value of a [`GrassCache`].
pub struct GrassCacheView {
    pub entries: Map<u64, CachedGrassChunkView>,
    pub changed: bool,
}

impl View for GrassCache {
    type V = GrassCacheView;

    open spec fn view(&self) -> GrassCacheView {
        GrassCacheView { entries: table_entries(self.data), changed: self.changed }
    }
}

impl GrassCache {
    /// A cache without entries, not touched yet.
    pub fn new() -> (cache: GrassCache)
        ensures
            cache@.entries.dom() == Set::<u64>::empty(),
            !cache@.changed,
    {
        GrassCache { data: table_new(), changed: false }
    }

    /// Whether the chunk has an entry.
    pub fn contains(&self, id: u64) -> (found: bool)
        ensures
            found == self@.entries.dom().contains(id),
    {
        table_contains_key(&self.data, id)
    }

    /// The entry of the chunk, if it has one.
    pub fn get(&self, id: u64) -> (entry: Option<&CachedGrassChunk>)
        ensures
            entry is Some <==> self@.entries.dom().contains(id),
            entry is Some ==> entry.unwrap()@ == self@.entries[id],
    {
        table_get(&self.data, id)
    }

    /// The entry of the chunk, created fresh where it had none. Whatever the caller leaves in
    /// it is what the cache then holds for the chunk; no other entry and no flag changes.
    pub fn get_or_create(&mut self, id: u64) -> (entry: &mut CachedGrassChunk)
        ensures
            (*entry)@ == (if old(self)@.entries.dom().contains(id) {
                old(self)@.entries[id]
            } else {
                CachedGrassChunkView::fresh()
            }),
            final(self)@ == (GrassCacheView {
                entries: old(self)@.entries.insert(id, (*final(entry))@),
                changed: old(self)@.changed,
            }),
    {
        table_entry_or_default(&mut self.data, id)
    }

    /// Evicts the chunk: takes its entry out of the cache and hands it over, with the device
    /// resources it holds. A chunk without an entry leaves the cache as it was.
    pub fn remove(&mut self, id: u64) -> (entry: Option<CachedGrassChunk>)
        ensures
            final(self)@ == (GrassCacheView {
                entries: old(self)@.entries.remove(id),
                changed: old(self)@.changed,
            }),
            entry is Some <==> old(self)@.entries.dom().contains(id),
            entry is Some ==> entry.unwrap()@ == old(self)@.entries[id],
    {
        table_remove(&mut self.data, id)
    }

    /// The identifiers of all entries, each once.
    pub fn ids(&self) -> (ids: Vec<u64>)
        ensures
            ids@.no_duplicates(),
            ids@.to_set() == self@.entries.dom(),
    {
        table_keys(&self.data)
    }
}

/// The chunks that are eligible for drawing: every chunk extracted so far, each once, in the
/// order in which they were first seen.
#[derive(Debug)]
pub struct EntityCache {
    pub entities: Vec<u64>,
}

impl View for EntityCache {
    type V = Seq<u64>;

    open spec fn view(&self) -> Seq<u64> {
        self.entities@
    }
}

impl Default for GrassCache {
    fn default() -> (cache: GrassCache)
        ensures
            cache@.entries.dom() == Set::<u64>::empty(),
            !cache@.changed,
    {
        GrassCache::new()
    }
}

impl Default for EntityCache {
    fn default() -> (cache: EntityCache)
        ensures
            cache@ == Seq::<u64>::empty(),
    {
        EntityCache::new()
    }
}

impl EntityCache {
    /// A set without chunks.
    pub fn new() -> (cache: EntityCache)
        ensures
            cache@ == Seq::<u64>::empty(),
    {
        EntityCache { entities: Vec::new() }
    }

    /// Whether the chunk is in the set.
    pub fn contains(&self, id: u64) -> (found: bool)
        ensures
            found == self@.contains(id),
    {
        let mut i: usize = 0;
        while i < self.entities.len()
            invariant
                i <= self.entities.len(),
                forall|j: int| 0 <= j < i ==> self.entities@[j] != id,
            decreases self.entities.len() - i,
        {
            if self.entities[i] == id {
                return true;
            }
            i += 1;
        }
        false
    }

    /// Evicts the chunk from the set: it is no member afterwards, and every other member
    /// stays, in its place among the others.
    pub fn remove(&mut self, id: u64)
        ensures
            final(self)@ == without_entity(old(self)@, id),
            !final(self)@.contains(id),
            forall|other: u64|
                #![trigger final(self)@.contains(other)]
                #![trigger old(self)@.contains(other)]
                other != id ==> (final(self)@.contains(other) <==> old(self)@.contains(other)),
            old(self)@.no_duplicates() ==> final(self)@.no_duplicates(),
    {
        let mut kept: Vec<u64> = Vec::new();
        let mut i: usize = 0;
        while i < self.entities.len()
            invariant
                i <= self.entities.len(),
                kept@ == without_entity(self.entities@.take(i as int), id),
            decreases self.entities.len() - i,
        {
            let member = self.entities[i];
            proof {
                let through = self.entities@.take(i + 1);
                assert(through.drop_last() =~= self.entities@.take(i as int));
                assert(through.last() == member);
            }
            if member != id {
                kept.push(member);
            }
            i += 1;
        }
        proof {
            assert(self.entities@.take(i as int) =~= self.entities@);
            lemma_without_entity(self.entities@, id);
        }
        self.entities = kept;
    }

    /// Adds the chunk to the set, unless it is there already.
    pub fn insert(&mut self, id: u64)
        ensures
            final(self)@ == with_entity(old(self)@, id),
            final(self)@.contains(id),
            old(self)@.no_duplicates() ==> final(self)@.no_duplicates(),
    {
        proof {
            if self@.no_duplicates() {
                lemma_with_entity_no_duplicates(self@, id);
            }
        }
        if !self.contains(id) {
            self.entities.push(id);
            assert(self@[self@.len() - 1] == id);
        }
    }
}

/// A set of chunks after one was taken out: the others, in their order.
pub open spec fn without_entity(entities: Seq<u64>, id: u64) -> Seq<u64>
    decreases entities.len(),
{
    if entities.len() == 0 {
        entities
    } else if entities.last() == id {
        without_entity(entities.drop_last(), id)
    } else {
        without_entity(entities.drop_last(), id).push(entities.last())
    }
}

/// Taking a chunk out of the set leaves exactly the other members, none of them twice
/// where none was twice before.
pub proof fn lemma_without_entity(entities: Seq<u64>, id: u64)
    ensures
        !without_entity(entities, id).contains(id),
        forall|other: u64|
            #![trigger without_entity(entities, id).contains(other)]
            #![trigger entities.contains(other)]
            other != id ==> (without_entity(entities, id).contains(other) <==> entities.contains(
                other,
            )),
        entities.no_duplicates() ==> without_entity(entities, id).no_duplicates(),
    decreases entities.len(),
{
    if entities.len() > 0 {
        let front = entities.drop_last();
        let last = entities.last();
        let kept = without_entity(front, id);
        let all = without_entity(entities, id);
        lemma_without_entity(front, id);
        assert forall|other: u64| other != id implies (all.contains(other) <==> entities.contains(
            other,
        )) by {
            if all.contains(other) {
                let k = choose|k: int| 0 <= k < all.len() && all[k] == other;
                if k < kept.len() {
                    assert(kept[k] == other);
                    assert(kept.contains(other));
                    let m = choose|m: int| 0 <= m < front.len() && front[m] == other;
                    assert(entities[m] == other);
                } else {
                    assert(entities[entities.len() - 1] == other);
                }
            }
            if entities.contains(other) {
                let m = choose|m: int| 0 <= m < entities.len() && entities[m] == other;
                if m < front.len() {
                    assert(front[m] == other);
                    assert(kept.contains(other));
                    let k = choose|k: int| 0 <= k < kept.len() && kept[k] == other;
                    assert(all[k] == other);
                } else {
                    assert(all[kept.len() as int] == other);
                }
            }
        }
        if all.contains(id) {
            let k = choose|k: int| 0 <= k < all.len() && all[k] == id;
            if k < kept.len() {
                assert(kept[k] == id);
            }
        }
        if entities.no_duplicates() {
            assert forall|a: int, b: int| 0 <= a < front.len() && 0 <= b < front.len() && a
                != b implies front[a] != front[b] by {
                assert(front[a] == entities[a] && front[b] == entities[b]);
            }
            if last != id {
                if kept.contains(last) {
                    let m = choose|m: int| 0 <= m < front.len() && front[m] == last;
                    assert(entities[m] == entities[entities.len() - 1]);
                }
                assert forall|a: int, b: int| 0 <= a < all.len() && 0 <= b < all.len() && a
                    != b implies all[a] != all[b] by {
                    if a < kept.len() && b < kept.len() {
                        assert(all[a] == kept[a] && all[b] == kept[b]);
                    } else if a < kept.len() {
                        assert(kept[a] == all[a]);
                    } else if b < kept.len() {
                        assert(kept[b] == all[b]);
                    }
                }
            }
        }
    }
}

/// A set of chunks after one more was added: unchanged where it was a member already.
pub open spec fn with_entity(entities: Seq<u64>, id: u64) -> Seq<u64> {
    if entities.contains(id) {
        entities
    } else {
        entities.push(id)
    }
}

/// Adding a chunk never makes a member occur twice, whether or not it was a member before.
pub proof fn lemma_with_entity_no_duplicates(entities: Seq<u64>, id: u64)
    requires
        entities.no_duplicates(),
    ensures
        with_entity(entities, id).no_duplicates(),
        with_entity(entities, id).contains(id),
        with_entity(with_entity(entities, id), id) == with_entity(entities, id),
        forall|other: u64| entities.contains(other) ==> with_entity(entities, id).contains(other),
{
    let after = with_entity(entities, id);
    if !entities.contains(id) {
        assert(after[entities.len() as int] == id);
        assert forall|other: u64| entities.contains(other) implies after.contains(other) by {
            let i = choose|i: int| 0 <= i < entities.len() && entities[i] == other;
            assert(after[i] == other);
        }
    }
}

} // verus!
