//! The weather cache: samples filed under the normalised city name, each
//! good until a deadline that lies one time-to-live after its writing.
//!
//! Instants are milliseconds on a clock that never runs backwards.
use vstd::prelude::*;
use vstd::hash_map::StringHashMap;
use crate::models::{WeatherData, WeatherModel};
use crate::text::{normalize_key, normalized};

verus! {

/// A cached sample with the instant from which it no longer counts.
pub struct CacheEntry {
    pub data: WeatherData,
    pub expires_at: u128,
}

/// Mathematical model of a [`CacheEntry`].
pub struct EntryModel {
    pub data: WeatherModel,
    pub expires_at: nat,
}

impl View for CacheEntry {
    type V = EntryModel;

    open spec fn view(&self) -> EntryModel {
        EntryModel { data: self.data@, expires_at: self.expires_at as nat }
    }
}

/// What a lookup of `city` at the instant `now` finds in `entries`: the
/// sample filed under the city's normalised name, provided its deadline lies
/// strictly after `now`.
pub open spec fn read(entries: Map<Seq<char>, EntryModel>, city: Seq<char>, now: nat) -> Option<
    WeatherModel,
> {
    let key = normalized(city);
    if entries.contains_key(key) && entries[key].expires_at > now {
        Some(entries[key].data)
    } else {
        None
    }
}

/// The entries after `data` is filed for `city` at the instant `now` under a
/// time-to-live of `ttl_seconds`.
pub open spec fn written(
    entries: Map<Seq<char>, EntryModel>,
    city: Seq<char>,
    data: WeatherModel,
    now: nat,
    ttl_seconds: nat,
) -> Map<Seq<char>, EntryModel> {
    entries.insert(normalized(city), EntryModel { data, expires_at: now + ttl_seconds * 1000 })
}

/// The model of an optional sample.
pub open spec fn sample_model(sample: Option<WeatherData>) -> Option<WeatherModel> {
    match sample {
        Some(w) => Some(w@),
        None => None,
    }
}

/// Weather samples by city, each kept for a fixed time-to-live.
pub struct WeatherCache {
    store: StringHashMap<CacheEntry>,
    ttl_seconds: u64,
}

impl WeatherCache {
    /// The time-to-live, in seconds.
    pub closed spec fn ttl(&self) -> nat {
        self.ttl_seconds as nat
    }

    /// The entries filed, by normalised city name.
    pub closed spec fn entries(&self) -> Map<Seq<char>, EntryModel> {
        self.store@.map_values(|e: CacheEntry| e@)
    }

    /// An empty cache whose entries count for `ttl_seconds` seconds.
    pub fn with_ttl(ttl_seconds: u64) -> (c: WeatherCache)
        ensures
            c.ttl() == ttl_seconds,
            c.entries() == Map::<Seq<char>, EntryModel>::empty(),
    {
        let c = WeatherCache { store: StringHashMap::new(), ttl_seconds };
        assert(c.entries() =~= Map::<Seq<char>, EntryModel>::empty());
        c
    }

    /// The sample filed for `city`, if it still counts at the instant `now`.
    /// An entry past its deadline is passed over and left in place.
    pub fn get(&self, city: &str, now: u64) -> (r: Option<WeatherData>)
        ensures
            sample_model(r) == read(self.entries(), city@, now as nat),
    {
        let key = normalize_key(city);
        match self.store.get(key.as_str()) {
            Some(entry) => {
                if entry.expires_at > now as u128 {
                    Some(entry.data.clone())
                } else {
                    None
                }
            },
            None => None,
        }
    }

    /// Files `data` for `city` at the instant `now`, in place of what was
    /// filed under the same normalised name.
    pub fn set(&mut self, city: String, data: WeatherData, now: u64)
        ensures
            final(self).ttl() == old(self).ttl(),
            final(self).entries() == written(
                old(self).entries(),
                city@,
                data@,
                now as nat,
                old(self).ttl(),
            ),
    {
        let key = normalize_key(city.as_str());
        let expires_at: u128 = now as u128 + self.ttl_seconds as u128 * 1000;
        let entry = CacheEntry { data, expires_at };
        self.store.insert(key, entry);
        assert(self.entries() =~= written(
            old(self).entries(),
            city@,
            data@,
            now as nat,
            old(self).ttl(),
        ));
    }
}

/// A sample that was written is read back, under any spelling that
/// normalises to the same name, at every instant before its deadline.
pub proof fn lemma_read_after_write(
    entries: Map<Seq<char>, EntryModel>,
    city: Seq<char>,
    probe: Seq<char>,
    data: WeatherModel,
    write_time: nat,
    ttl_seconds: nat,
    now: nat,
)
    requires
        normalized(probe) == normalized(city),
        now < write_time + ttl_seconds * 1000,
    ensures
        read(written(entries, city, data, write_time, ttl_seconds), probe, now) == Some(data),
{
}

/// From its deadline on a sample is no longer read back.
pub proof fn lemma_expired_is_gone(
    entries: Map<Seq<char>, EntryModel>,
    city: Seq<char>,
    probe: Seq<char>,
    data: WeatherModel,
    write_time: nat,
    ttl_seconds: nat,
    now: nat,
)
    requires
        normalized(probe) == normalized(city),
        now >= write_time + ttl_seconds * 1000,
    ensures
        read(written(entries, city, data, write_time, ttl_seconds), probe, now) is None,
{
}

/// Under a time-to-live of zero nothing that was written is ever read back.
pub proof fn lemma_zero_ttl_reads_nothing(
    entries: Map<Seq<char>, EntryModel>,
    city: Seq<char>,
    probe: Seq<char>,
    data: WeatherModel,
    write_time: nat,
    now: nat,
)
    requires
        normalized(probe) == normalized(city),
        now >= write_time,
    ensures
        read(written(entries, city, data, write_time, 0), probe, now) is None,
{
}

/// Writing one city leaves what is read for every other city as it was.
pub proof fn lemma_write_keeps_others(
    entries: Map<Seq<char>, EntryModel>,
    city: Seq<char>,
    probe: Seq<char>,
    data: WeatherModel,
    write_time: nat,
    ttl_seconds: nat,
    now: nat,
)
    requires
        normalized(probe) != normalized(city),
    ensures
        read(written(entries, city, data, write_time, ttl_seconds), probe, now) == read(
            entries,
            probe,
            now,
        ),
{
}

} // verus!
