use std::hash::{BuildHasher, Hash};
use std::time::Duration;
use ttl_cache::TtlCache;
use vstd::prelude::*;

verus! {

#[verifier::external_type_specification]
#[verifier::external_body]
#[verifier::reject_recursive_types(K)]
#[verifier::reject_recursive_types(V)]
#[verifier::reject_recursive_types(S)]
pub struct ExTtlCache<K: Eq + Hash, V, S: BuildHasher>(TtlCache<K, V, S>);

/// The identifier cache: logical name to provider identifier.
pub type IdCache = TtlCache<String, String>;

/// The entries that the cache stores, expired or not.
pub uninterp spec fn cache_entries(c: IdCache) -> Map<Seq<char>, Seq<char>>;

/// A cache that stores nothing.
pub open spec fn empty_entries() -> Map<Seq<char>, Seq<char>> {
    Map::empty()
}

/// The number of entries the cache was made to hold.
pub uninterp spec fn cache_capacity(c: IdCache) -> nat;

/// The duration of the given number of whole seconds.
pub uninterp spec fn secs_duration(secs: u64) -> Duration;

/// Relies on `Duration::from_secs`: a duration of the given seconds.
#[verifier::external_body]
pub(crate) fn duration_from_secs(secs: u64) -> (r: Duration)
    ensures
        r == secs_duration(secs),
{
    Duration::from_secs(secs)
}

/// Relies on `TtlCache::new`: an empty cache that holds at most `capacity`
/// entries.
#[verifier::external_body]
pub(crate) fn new_cache(capacity: usize) -> (r: IdCache)
    ensures
        cache_entries(r) == empty_entries(),
        cache_capacity(r) == capacity,
{
    TtlCache::new(capacity)
}

/// Relies on `TtlCache::get`: a stored, unexpired entry's value, or nothing.
/// Whether an entry has expired depends on the clock, so a miss is always
/// possible.
#[verifier::external_body]
pub(crate) fn cache_get(c: &IdCache, key: &String) -> (r: Option<String>)
    ensures
        r matches Some(v) ==> cache_entries(*c).contains_key(key@) && cache_entries(*c)[key@]
            == v@,
{
    c.get(key).cloned()
}

/// The longest time-to-live an entry may have, in seconds (about 136
/// years): its expiry, the clock now plus the time-to-live, must be a time
/// the clock can represent.
pub const MAX_TTL_SECS: u64 = 4294967295;

/// Relies on `TtlCache::insert`: the entry is stored under its key (in place
/// of the key's earlier entry) and becomes the newest; when the store then
/// holds more entries than the capacity, its oldest entry is dropped. The
/// entry expires `ttl_secs` seconds from now.
#[verifier::external_body]
pub(crate) fn cache_insert(c: &mut IdCache, key: String, value: String, ttl_secs: u64)
    requires
        ttl_secs <= MAX_TTL_SECS,
    ensures
        cache_capacity(*final(c)) == cache_capacity(*old(c)),
        cache_entries(*final(c)).dom().finite(),
        cache_capacity(*old(c)) > 0 ==> cache_entries(*final(c)).contains_key(key@)
            && cache_entries(*final(c))[key@] == value@,
        forall|k: Seq<char>|
            k != key@ && #[trigger] cache_entries(*final(c)).contains_key(k) ==> cache_entries(
                *old(c),
            ).contains_key(k) && cache_entries(*final(c))[k] == cache_entries(*old(c))[k],
        cache_entries(*old(c)).dom().finite() && cache_entries(*old(c)).insert(key@, value@).len()
            <= cache_capacity(*old(c)) ==> cache_entries(*final(c)) == cache_entries(
            *old(c),
        ).insert(key@, value@),
{
    c.insert(key, value, Duration::from_secs(ttl_secs));
}

} // verus!
