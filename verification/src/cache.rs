//! The store of finished conversions, by cache key.

use vstd::prelude::*;
use vstd::hash_map::StringHashMap;

verus! {

/// Encoded images by cache key. Entries are never evicted and never expire; a second
/// `put` under a key replaces the first.
pub struct ResultCache {
    entries: StringHashMap<Vec<u8>>,
}

impl View for ResultCache {
    type V = Map<Seq<char>, Seq<u8>>;

    closed spec fn view(&self) -> Map<Seq<char>, Seq<u8>> {
        Map::new(|key: Seq<char>| self.entries@.contains_key(key), |key: Seq<char>| self.entries@[key]@)
    }
}

/// What a lookup of `key` finds in a cache that holds `entries`.
pub open spec fn lookup(entries: Map<Seq<char>, Seq<u8>>, key: Seq<char>) -> Option<Seq<u8>> {
    if entries.contains_key(key) {
        Some(entries[key])
    } else {
        None
    }
}

/// The bytes of an optional byte vector.
pub open spec fn bytes_of(found: Option<Vec<u8>>) -> Option<Seq<u8>> {
    match found {
        Some(bytes) => Some(bytes@),
        None => None,
    }
}

impl ResultCache {
    /// An empty cache.
    pub fn new() -> (cache: ResultCache)
        ensures
            cache@ == Map::<Seq<char>, Seq<u8>>::empty(),
    {
        let cache = ResultCache { entries: StringHashMap::new() };
        assert(cache@ =~= Map::<Seq<char>, Seq<u8>>::empty());
        cache
    }

    /// A copy of the bytes stored under `key`, if there are any.
    pub fn get(&self, key: &str) -> (found: Option<Vec<u8>>)
        ensures
            bytes_of(found) == lookup(self@, key@),
    {
        match self.entries.get(key) {
            Some(bytes) => Some(bytes.clone()),
            None => None,
        }
    }

    /// Whether anything is stored under `key`.
    pub fn contains(&self, key: &str) -> (b: bool)
        ensures
            b == self@.contains_key(key@),
    {
        self.entries.contains_key(key)
    }

    /// Stores `bytes` under `key`, in place of what was stored there before.
    pub fn put(&mut self, key: String, bytes: Vec<u8>)
        ensures
            final(self)@ == old(self)@.insert(key@, bytes@),
    {
        self.entries.insert(key, bytes);
        assert(self@ =~= old(self)@.insert(key@, bytes@));
    }

    /// The number of entries.
    pub fn len(&self) -> (n: usize)
        ensures
            n == self@.len(),
    {
        proof {
            self.lemma_same_domain();
        }
        self.entries.len()
    }

    /// Whether the cache holds nothing.
    pub fn is_empty(&self) -> (b: bool)
        ensures
            b == (self@.len() == 0),
    {
        self.len() == 0
    }

    proof fn lemma_same_domain(&self)
        ensures
            self@.dom() == self.entries@.dom(),
            self@.len() == self.entries@.len(),
    {
        assert(self@.dom() =~= self.entries@.dom());
    }
}

} // verus!
