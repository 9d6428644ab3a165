use crate::event::{EventId, SharedKey, SharedKeyView};
use vstd::hash_map::StringHashMap;
use vstd::prelude::*;

verus! {

/// The shared keys known during one run of the engine, by event identifier.
///
/// The cache lives in memory only; it starts empty or from a bulk prefetch
/// and grows by one entry per successful targeted fetch.
pub struct SharedKeyCache {
    entries: StringHashMap<SharedKey>,
}

/// The map from identifiers to key values that a sequence of pairs spells,
/// later pairs taking precedence.
pub open spec fn keys_of(pairs: Seq<(EventId, SharedKey)>) -> Map<Seq<char>, SharedKeyView>
    decreases pairs.len(),
{
    if pairs.len() == 0 {
        Map::empty()
    } else {
        keys_of(pairs.drop_last()).insert(pairs.last().0@, pairs.last().1@)
    }
}

impl View for SharedKeyCache {
    type V = Map<Seq<char>, SharedKeyView>;

    closed spec fn view(&self) -> Map<Seq<char>, SharedKeyView> {
        self.entries@.map_values(|key: SharedKey| key@)
    }
}

impl SharedKeyCache {
    /// An empty cache.
    pub fn new() -> (cache: Self)
        ensures
            cache@ == Map::<Seq<char>, SharedKeyView>::empty(),
    {
        let cache = SharedKeyCache { entries: StringHashMap::new() };
        assert(cache@ =~= Map::<Seq<char>, SharedKeyView>::empty());
        cache
    }

    /// A cache holding the pairs of a bulk prefetch.
    pub fn from_pairs(pairs: Vec<(EventId, SharedKey)>) -> (cache: Self)
        ensures
            cache@ == keys_of(pairs@),
    {
        let mut cache = SharedKeyCache::new();
        let mut pairs = pairs;
        let ghost all = pairs@;
        let mut rest: Vec<(EventId, SharedKey)> = Vec::new();
        // Entries are taken from the back, so they are reversed first to keep
        // the precedence of later pairs.
        while pairs.len() > 0
            invariant
                pairs@.len() + rest@.len() == all.len(),
                forall|i: int| 0 <= i < pairs@.len() ==> pairs@[i] == all[i],
                forall|i: int| 0 <= i < rest@.len() ==> rest@[i] == all[all.len() - 1 - i],
            decreases pairs@.len(),
        {
            let pair = pairs.pop().unwrap();
            rest.push(pair);
        }
        let ghost mut done: Seq<(EventId, SharedKey)> = Seq::empty();
        while rest.len() > 0
            invariant
                rest@.len() + done.len() == all.len(),
                forall|i: int| 0 <= i < rest@.len() ==> rest@[i] == all[all.len() - 1 - i],
                done == all.subrange(0, done.len() as int),
                cache@ == keys_of(done),
            decreases rest@.len(),
        {
            let (id, key) = rest.pop().unwrap();
            proof {
                let next = done.push((id, key));
                assert(next.drop_last() == done);
                assert(next == all.subrange(0, next.len() as int));
                done = next;
            }
            cache.insert(id, key);
        }
        assert(done == all);
        cache
    }

    /// Whether a key is cached for `id`.
    pub fn contains(&self, id: &EventId) -> (yes: bool)
        ensures
            yes == self@.contains_key(id@),
    {
        self.entries.contains_key(id.as_str())
    }

    /// The key cached for `id`, if any.
    pub fn get(&self, id: &EventId) -> (found: Option<&SharedKey>)
        ensures
            match found {
                Some(key) => self@.contains_key(id@) && key@ == self@[id@],
                None => !self@.contains_key(id@),
            },
    {
        self.entries.get(id.as_str())
    }

    /// Caches `key` for `id`, replacing what was cached for it before.
    pub fn insert(&mut self, id: EventId, key: SharedKey)
        ensures
            final(self)@ == old(self)@.insert(id@, key@),
    {
        let id_text = id.as_str().to_owned();
        self.entries.insert(id_text, key);
        assert(self@ =~= old(self)@.insert(id@, key@));
    }

    /// The number of cached keys.
    pub fn len(&self) -> (count: usize)
        ensures
            count == self@.len(),
    {
        assert(self@.dom() =~= self.entries@.dom());
        self.entries.len()
    }
}

} // verus!
