//! The time cache: samples filed under the normalised city name, kept for as
//! long as the cache lives.
use vstd::prelude::*;
use vstd::hash_map::StringHashMap;
use crate::models::{TimeData, TimeModel};
use crate::text::{normalize_key, normalized};

verus! {

/// What a lookup of `city` finds in `entries`: the sample filed under the
/// city's normalised name.
pub open spec fn read(entries: Map<Seq<char>, TimeModel>, city: Seq<char>) -> Option<TimeModel> {
    let key = normalized(city);
    if entries.contains_key(key) {
        Some(entries[key])
    } else {
        None
    }
}

/// The entries after `data` is filed for `city`.
pub open spec fn written(entries: Map<Seq<char>, TimeModel>, city: Seq<char>, data: TimeModel) -> Map<
    Seq<char>,
    TimeModel,
> {
    entries.insert(normalized(city), data)
}

/// The model of an optional sample.
pub open spec fn sample_model(sample: Option<TimeData>) -> Option<TimeModel> {
    match sample {
        Some(t) => Some(t@),
        None => None,
    }
}

/// Time samples by city, without expiry.
pub struct TimeCache {
    store: StringHashMap<TimeData>,
}

impl TimeCache {
    /// The entries filed, by normalised city name.
    pub closed spec fn entries(&self) -> Map<Seq<char>, TimeModel> {
        self.store@.map_values(|t: TimeData| t@)
    }

    /// An empty cache.
    pub fn new() -> (c: TimeCache)
        ensures
            c.entries() == Map::<Seq<char>, TimeModel>::empty(),
    {
        let c = TimeCache { store: StringHashMap::new() };
        assert(c.entries() =~= Map::<Seq<char>, TimeModel>::empty());
        c
    }

    /// The sample filed for `city`, if there is one.
    pub fn get(&self, city: &str) -> (r: Option<TimeData>)
        ensures
            sample_model(r) == read(self.entries(), city@),
    {
        let key = normalize_key(city);
        match self.store.get(key.as_str()) {
            Some(data) => Some(data.clone()),
            None => None,
        }
    }

    /// Files `data` for `city`, in place of what was filed under the same
    /// normalised name.
    pub fn set(&mut self, city: String, data: TimeData)
        ensures
            final(self).entries() == written(old(self).entries(), city@, data@),
    {
        let key = normalize_key(city.as_str());
        self.store.insert(key, data);
        assert(self.entries() =~= written(old(self).entries(), city@, data@));
    }
}

impl Default for TimeCache {
    fn default() -> (c: TimeCache)
        ensures
            c.entries() == Map::<Seq<char>, TimeModel>::empty(),
    {
        TimeCache::new()
    }
}

/// A sample that was written is read back, under any spelling that
/// normalises to the same name, whenever it is asked for.
pub proof fn lemma_read_after_write(
    entries: Map<Seq<char>, TimeModel>,
    city: Seq<char>,
    probe: Seq<char>,
    data: TimeModel,
)
    requires
        normalized(probe) == normalized(city),
    ensures
        read(written(entries, city, data), probe) == Some(data),
{
}

/// Writing one city leaves what is read for every other city as it was.
pub proof fn lemma_write_keeps_others(
    entries: Map<Seq<char>, TimeModel>,
    city: Seq<char>,
    probe: Seq<char>,
    data: TimeModel,
)
    requires
        normalized(probe) != normalized(city),
    ensures
        read(written(entries, city, data), probe) == read(entries, probe),
{
}

} // verus!
