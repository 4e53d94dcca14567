//! A cache of decoded trie nodes and values for one block validation.
//!
//! Nodes and values that have been loaded from the storage proof are kept
//! by their owner in an arena; this cache remembers where. It maps the hash
//! of a node, and the key of a value, to the slot of the arena that holds
//! it. The size is not bounded, and nothing is ever evicted or overwritten
//! behind the caller's back.

use vstd::prelude::*;

verus! {

/// A map from byte strings to slots, kept in a `hashbrown::HashMap`.
#[verifier::external_body]
pub struct SlotIndex {
    map: hashbrown::HashMap<Vec<u8>, usize>,
}

/// What a slot index holds: the slot of each key that is present.
pub uninterp spec fn entries(index: SlotIndex) -> Map<Seq<u8>, usize>;

/// The contents of an index without entries.
pub open spec fn empty_index() -> Map<Seq<u8>, usize> {
    Map::empty()
}

/// `hashbrown::HashMap::new`: a map without entries.
#[verifier::external_body]
fn slot_index_new() -> (fresh: SlotIndex)
    ensures
        entries(fresh) == empty_index(),
{
    SlotIndex { map: hashbrown::HashMap::new() }
}

/// `hashbrown::HashMap::get`: the slot stored under `key`, or `None` when
/// the map has no entry for it. The map is not changed.
#[verifier::external_body]
fn slot_index_get(index: &SlotIndex, key: &[u8]) -> (slot: Option<usize>)
    ensures
        slot == (if entries(*index).contains_key(key@) {
            Some(entries(*index)[key@])
        } else {
            None
        }),
{
    index.map.get(key).copied()
}

/// `hashbrown::HashMap::insert`: afterwards `key` maps to `slot` and every
/// other key is as before; returns what `key` mapped to before.
#[verifier::external_body]
fn slot_index_insert(index: &mut SlotIndex, key: &[u8], slot: usize) -> (previous: Option<usize>)
    ensures
        entries(*final(index)) == entries(*old(index)).insert(key@, slot),
        previous == (if entries(*old(index)).contains_key(key@) {
            Some(entries(*old(index))[key@])
        } else {
            None
        }),
{
    index.map.insert(key.to_vec(), slot)
}

/// The cache that a trie reads through: where the nodes and the values that
/// were already decoded are to be found.
pub struct SimpleTrieCache {
    node_cache: SlotIndex,
    value_cache: SlotIndex,
}

impl SimpleTrieCache {
    /// The slot of each cached node, by the node's hash.
    pub closed spec fn nodes(&self) -> Map<Seq<u8>, usize> {
        entries(self.node_cache)
    }

    /// The slot of each cached value, by the value's key.
    pub closed spec fn values(&self) -> Map<Seq<u8>, usize> {
        entries(self.value_cache)
    }

    /// The slot of the value cached for `key`, if there is one.
    pub fn lookup_value_for_key(&self, key: &[u8]) -> (slot: Option<usize>)
        ensures
            slot == (if self.values().contains_key(key@) {
                Some(self.values()[key@])
            } else {
                None
            }),
    {
        slot_index_get(&self.value_cache, key)
    }

    /// Caches the value in `slot` for `key`, in place of any value cached
    /// for that key before. Other keys and all nodes stay as they are.
    pub fn cache_value_for_key(&mut self, key: &[u8], slot: usize)
        ensures
            final(self).values() == old(self).values().insert(key@, slot),
            final(self).nodes() == old(self).nodes(),
    {
        slot_index_insert(&mut self.value_cache, key, slot);
    }

    /// The slot of the node with the given hash, if it is cached.
    pub fn get_node(&self, hash: &[u8]) -> (slot: Option<usize>)
        ensures
            slot == (if self.nodes().contains_key(hash@) {
                Some(self.nodes()[hash@])
            } else {
                None
            }),
    {
        slot_index_get(&self.node_cache, hash)
    }

    /// The slot of the node with the given hash; a node that is not cached
    /// is fetched and cached first.
    ///
    /// A cached node is returned as it is. Otherwise `fetch_node` is called
    /// once: the slot it gives is cached under `hash` and returned, and its
    /// error is handed on with the cache unchanged.
    pub fn get_or_insert_node<E, F: FnOnce() -> Result<usize, E>>(
        &mut self,
        hash: &[u8],
        fetch_node: F,
    ) -> (result: Result<usize, E>)
        requires
            fetch_node.requires(()),
        ensures
            final(self).values() == old(self).values(),
            old(self).nodes().contains_key(hash@) ==> {
                &&& result == Ok::<usize, E>(old(self).nodes()[hash@])
                &&& final(self).nodes() == old(self).nodes()
            },
            !old(self).nodes().contains_key(hash@) ==> {
                &&& fetch_node.ensures((), result)
                &&& match result {
                    Ok(slot) => final(self).nodes() == old(self).nodes().insert(hash@, slot),
                    Err(_) => final(self).nodes() == old(self).nodes(),
                }
            },
    {
        match slot_index_get(&self.node_cache, hash) {
            Some(slot) => Ok(slot),
            None => match fetch_node() {
                Ok(slot) => {
                    slot_index_insert(&mut self.node_cache, hash, slot);
                    Ok(slot)
                },
                Err(error) => Err(error),
            },
        }
    }
}

/// Owner of the caches of one block validation.
pub struct CacheProvider {
    cache: SimpleTrieCache,
}

impl CacheProvider {
    /// The slot of each cached node, by the node's hash.
    pub closed spec fn nodes(&self) -> Map<Seq<u8>, usize> {
        self.cache.nodes()
    }

    /// The slot of each cached value, by the value's key.
    pub closed spec fn values(&self) -> Map<Seq<u8>, usize> {
        self.cache.values()
    }

    /// A provider whose caches are empty.
    pub fn new() -> (provider: CacheProvider)
        ensures
            provider.nodes() == empty_index(),
            provider.values() == empty_index(),
    {
        CacheProvider {
            cache: SimpleTrieCache { node_cache: slot_index_new(), value_cache: slot_index_new() },
        }
    }

    /// The cache for reading a trie. It is the provider's own, whatever the
    /// storage root: what is cached through it stays with the provider.
    pub fn as_trie_db_cache(&mut self, storage_root: &[u8]) -> (cache: &mut SimpleTrieCache)
        ensures
            cache.nodes() == old(self).nodes(),
            cache.values() == old(self).values(),
            final(self).nodes() == final(cache).nodes(),
            final(self).values() == final(cache).values(),
    {
        &mut self.cache
    }

    /// The cache for changing a trie: the same as the one for reading.
    pub fn as_trie_db_mut_cache(&mut self) -> (cache: &mut SimpleTrieCache)
        ensures
            cache.nodes() == old(self).nodes(),
            cache.values() == old(self).values(),
            final(self).nodes() == final(cache).nodes(),
            final(self).values() == final(cache).values(),
    {
        &mut self.cache
    }
}

} // verus!
