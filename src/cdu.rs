use crate::cache::{
    cache_capacity, cache_entries, cache_get, cache_insert, duration_from_secs, empty_entries,
    new_cache, secs_duration, IdCache, MAX_TTL_SECS,
};
use crate::error::CduError;
use crate::opts::Opts;
use crate::outcome::{all_ok, all_or_first_failure, first_failure_at};
use std::time::Duration;
use vstd::prelude::*;
use vstd::set_lib::lemma_len_subset;

verus! {

/// A logical name (the zone's or a record's) with its provider identifier.
#[derive(Debug, Clone, PartialEq, Eq)]
pub struct ResolvedName {
    pub logical_name: String,
    pub provider_id: String,
}

/// One record to resolve in the zone: served from the cache when
/// `cached_id` holds an identifier, else listed at the provider.
#[derive(Debug, Clone, PartialEq, Eq)]
pub struct RecordLookup {
    pub zone_id: String,
    pub name: String,
    pub cached_id: Option<String>,
}

impl RecordLookup {
    /// The record resolved from the cache, when the cache held it.
    pub fn from_cache(&self) -> (r: Option<ResolvedName>)
        ensures
            r is Some <==> self.cached_id is Some,
            r matches Some(n) ==> n.logical_name == self.name && n.provider_id
                == self.cached_id->Some_0,
    {
        match &self.cached_id {
            Some(id) => Some(ResolvedName { logical_name: self.name.clone(), provider_id: id.clone() }),
            None => None,
        }
    }
}

/// One "set address" call: the record keeps its name and gets `address`.
#[derive(Debug, Clone, PartialEq, Eq)]
pub struct UpdateCall {
    pub zone_id: String,
    pub record_id: String,
    pub name: String,
    pub address: [u8; 4],
}

/// What the provider reported for one updated record.
#[derive(Debug, Clone, PartialEq, Eq)]
pub struct UpdateOutcome {
    pub record_name: String,
    pub provider_id: String,
    pub resulting_address: String,
}

/// What resolving `name` against a listing gives: the listing's failure, the
/// first identifier listed, or `missing` when nothing was listed.
pub open spec fn resolution(
    name: Seq<char>,
    listing: Result<Vec<String>, CduError>,
    missing: CduError,
) -> Result<(Seq<char>, Seq<char>), CduError> {
    match listing {
        Err(e) => Err(e),
        Ok(ids) => if ids@.len() > 0 {
            Ok((name, ids@[0]@))
        } else {
            Err(missing)
        },
    }
}

/// A resolution as its logical name and identifier, or its failure.
pub open spec fn resolved_view(r: Result<ResolvedName, CduError>) -> Result<
    (Seq<char>, Seq<char>),
    CduError,
> {
    match r {
        Err(e) => Err(e),
        Ok(n) => Ok((n.logical_name@, n.provider_id@)),
    }
}

/// The reconciliation engine: the configuration and the identifier cache
/// that every run shares.
pub struct Cdu {
    opts: Opts,
    cache: IdCache,
}

impl Cdu {
    /// The configuration the engine was made with.
    pub closed spec fn config(&self) -> Opts {
        self.opts
    }

    /// The identifiers the cache stores, by logical name. An expired one
    /// stays stored until it is overwritten, but a lookup of it misses.
    pub closed spec fn entries(&self) -> Map<Seq<char>, Seq<char>> {
        cache_entries(self.cache)
    }

    /// How many entries the cache was made to hold.
    pub closed spec fn capacity(&self) -> nat {
        cache_capacity(self.cache)
    }

    /// The names that may be cached: the zone and each record name.
    pub open spec fn cache_keys(&self) -> Set<Seq<char>> {
        self.config().record_names().to_set().insert(self.config().zone@)
    }

    /// The cache is sized for one entry per record name and one for the
    /// zone, stores nothing under another name, so it never has to evict,
    /// and stays empty while caching is off.
    pub closed spec fn wf(&self) -> bool {
        &&& cache_capacity(self.cache) == self.opts.record_names().len() + 1
        &&& self.opts.cache_seconds <= MAX_TTL_SECS
        &&& self.entries().dom().finite()
        &&& self.entries().dom().subset_of(self.cache_keys())
        &&& self.config().cache_seconds == 0 ==> self.entries() == empty_entries()
    }

    /// What the cache holds after an identifier was resolved for `key`: the
    /// identifier when caching is on, nothing new when it is off.
    pub open spec fn entries_after(&self, key: Seq<char>, id: Seq<char>) -> Map<
        Seq<char>,
        Seq<char>,
    > {
        if self.config().cache_seconds > 0 {
            self.entries().insert(key, id)
        } else {
            self.entries()
        }
    }

    /// An engine with an empty cache that holds one entry per record name
    /// and one for the zone. That many entries must fit in a `usize`, and
    /// the time-to-live must not pass `MAX_TTL_SECS`.
    pub fn new(opts: Opts) -> (r: Cdu)
        requires
            opts.record_names().len() < usize::MAX,
            opts.cache_seconds <= MAX_TTL_SECS,
        ensures
            r.wf(),
            r.config() == opts,
            r.entries() == empty_entries(),
            r.capacity() == opts.record_names().len() + 1,
    {
        let capacity = opts.record_name_list().len();
        let cache = new_cache(capacity + 1);
        Cdu { opts, cache }
    }

    /// How long a resolved identifier stays cached; nothing when caching is
    /// off.
    pub fn cache_ttl(&self) -> (r: Option<Duration>)
        ensures
            r == (if self.config().cache_seconds > 0 {
                Some(secs_duration(self.config().cache_seconds))
            } else {
                None
            }),
    {
        if self.opts.cache_seconds > 0 {
            Some(duration_from_secs(self.opts.cache_seconds))
        } else {
            None
        }
    }

    /// The schedule expression of daemon mode.
    pub fn cron(&self) -> (r: &str)
        ensures
            r@ == self.config().cron@,
    {
        self.opts.cron.as_str()
    }

    /// Whether debug logging was asked for.
    pub fn is_debug(&self) -> (r: bool)
        ensures
            r == self.config().debug,
    {
        self.opts.debug
    }

    /// Whether to run forever on the schedule instead of once.
    pub fn is_daemon(&self) -> (r: bool)
        ensures
            r == self.config().daemon,
    {
        self.opts.daemon
    }

    proof fn lemma_room_for(&self, key: Seq<char>, id: Seq<char>)
        requires
            self.wf(),
            self.cache_keys().contains(key),
        ensures
            self.entries().insert(key, id).len() <= cache_capacity(self.cache),
    {
        let names = self.config().record_names();
        names.lemma_cardinality_of_set();
        let keys = self.cache_keys();
        assert(self.entries().insert(key, id).dom() =~= self.entries().dom().insert(key));
        lemma_len_subset(self.entries().dom().insert(key), keys);
    }

    /// Stores `id` under `key` when caching is on.
    fn remember(&mut self, key: &String, id: &String)
        requires
            old(self).wf(),
            old(self).cache_keys().contains(key@),
        ensures
            final(self).wf(),
            final(self).config() == old(self).config(),
            final(self).capacity() == old(self).capacity(),
            final(self).entries() == old(self).entries_after(key@, id@),
    {
        if self.opts.cache_seconds > 0 {
            proof {
                self.lemma_room_for(key@, id@);
            }
            cache_insert(&mut self.cache, key.clone(), id.clone(), self.opts.cache_seconds);
            assert(self.entries().dom() =~= old(self).entries().dom().insert(key@));
        }
    }

    /// The zone resolved from the cache, when the cache holds its
    /// identifier. With caching off the cache is always missed.
    pub fn cached_zone(&self) -> (r: Option<ResolvedName>)
        requires
            self.wf(),
        ensures
            r matches Some(n) ==> n.logical_name == self.config().zone
                && self.entries().contains_key(self.config().zone@)
                && self.entries()[self.config().zone@] == n.provider_id@,
            self.config().cache_seconds == 0 ==> r is None,
    {
        match cache_get(&self.cache, &self.opts.zone) {
            Some(id) => Some(ResolvedName { logical_name: self.opts.zone.clone(), provider_id: id }),
            None => None,
        }
    }

    /// Resolves the zone from the provider's listing of zones of that name:
    /// the first one listed wins, and when caching is on its identifier is
    /// stored.
    pub fn accept_zone_listing(&mut self, listing: Result<Vec<String>, CduError>) -> (r: Result<
        ResolvedName,
        CduError,
    >)
        requires
            old(self).wf(),
        ensures
            final(self).wf(),
            final(self).config() == old(self).config(),
            final(self).capacity() == old(self).capacity(),
            resolved_view(r) == resolution(
                old(self).config().zone@,
                listing,
                CduError::ZoneNotFound(old(self).config().zone),
            ),
            final(self).entries() == (match r {
                Ok(n) => old(self).entries_after(n.logical_name@, n.provider_id@),
                Err(_) => old(self).entries(),
            }),
    {
        match listing {
            Err(e) => Err(e),
            Ok(ids) => {
                if ids.len() > 0 {
                    let zone = self.opts.zone.clone();
                    let id = ids[0].clone();
                    self.remember(&zone, &id);
                    Ok(ResolvedName { logical_name: zone, provider_id: id })
                } else {
                    Err(CduError::ZoneNotFound(self.opts.zone.clone()))
                }
            },
        }
    }

    /// The record lookups of one run, with the zone they belong to: one
    /// lookup per configured record name in order, each carrying the zone's
    /// identifier and the cached identifier if there is one. When the zone
    /// did not resolve there is none: its failure is the result.
    pub fn plan_record_lookups(&self, zone: Result<ResolvedName, CduError>) -> (r: Result<
        (ResolvedName, Vec<RecordLookup>),
        CduError,
    >)
        requires
            self.wf(),
        ensures
            zone is Err ==> r == Err::<(ResolvedName, Vec<RecordLookup>), CduError>(zone->Err_0),
            zone is Ok ==> r is Ok,
            r matches Ok((rz, ls)) ==> zone matches Ok(z) && rz == z && ls@.len()
                == self.config().record_names().len() && forall|i: int|
                0 <= i < ls@.len() ==> {
                    &&& (#[trigger] ls@[i]).zone_id@ == z.provider_id@
                    &&& ls@[i].name@ == self.config().record_names()[i]
                    &&& ls@[i].cached_id matches Some(id) ==> self.entries().contains_key(
                        ls@[i].name@,
                    ) && self.entries()[ls@[i].name@] == id@
                    &&& self.config().cache_seconds == 0 ==> ls@[i].cached_id is None
                },
    {
        let zone = match zone {
            Err(e) => {
                return Err(e);
            },
            Ok(z) => z,
        };
        let names = self.opts.record_name_list();
        let mut lookups: Vec<RecordLookup> = Vec::new();
        let mut i: usize = 0;
        while i < names.len()
            invariant
                self.wf(),
                i <= names@.len(),
                names@.len() == self.config().record_names().len(),
                forall|k: int| 0 <= k < names@.len() ==> #[trigger] names@[k]@
                    == self.config().record_names()[k],
                lookups@.len() == i,
                forall|k: int|
                    0 <= k < i ==> {
                        &&& (#[trigger] lookups@[k]).zone_id@ == zone.provider_id@
                        &&& lookups@[k].name@ == self.config().record_names()[k]
                        &&& lookups@[k].cached_id matches Some(id) ==> self.entries().contains_key(
                            lookups@[k].name@,
                        ) && self.entries()[lookups@[k].name@] == id@
                        &&& self.config().cache_seconds == 0 ==> lookups@[k].cached_id is None
                    },
            decreases names@.len() - i,
        {
            let name = names[i].clone();
            let cached_id = cache_get(&self.cache, &name);
            lookups.push(RecordLookup { zone_id: zone.provider_id.clone(), name, cached_id });
            i = i + 1;
        }
        Ok((zone, lookups))
    }

    /// Resolves a configured record from the provider's listing of records
    /// of that name in the zone: the first one listed wins, and when caching
    /// is on its identifier is stored.
    pub fn accept_record_listing(
        &mut self,
        name: String,
        listing: Result<Vec<String>, CduError>,
    ) -> (r: Result<ResolvedName, CduError>)
        requires
            old(self).wf(),
            old(self).config().record_names().contains(name@),
        ensures
            final(self).wf(),
            final(self).config() == old(self).config(),
            final(self).capacity() == old(self).capacity(),
            resolved_view(r) == resolution(name@, listing, CduError::RecordNotFound(name)),
            final(self).entries() == (match r {
                Ok(n) => old(self).entries_after(n.logical_name@, n.provider_id@),
                Err(_) => old(self).entries(),
            }),
    {
        match listing {
            Err(e) => Err(e),
            Ok(ids) => {
                if ids.len() > 0 {
                    let id = ids[0].clone();
                    self.remember(&name, &id);
                    Ok(ResolvedName { logical_name: name, provider_id: id })
                } else {
                    Err(CduError::RecordNotFound(name))
                }
            },
        }
    }
}

/// Each call as its zone identifier, record identifier, record name and
/// address.
pub open spec fn calls_view(calls: Seq<UpdateCall>) -> Seq<
    (Seq<char>, Seq<char>, Seq<char>, [u8; 4]),
> {
    calls.map_values(|c: UpdateCall| (c.zone_id@, c.record_id@, c.name@, c.address))
}

/// What `plan_updates` gives: when every record resolved, one call per
/// record in order, each with the zone, the record's identifier and name,
/// and `address`; else the first failure, and no call.
pub open spec fn updates_planned(
    zone_id: Seq<char>,
    resolved: Seq<Result<ResolvedName, CduError>>,
    address: [u8; 4],
    r: Result<Vec<UpdateCall>, CduError>,
) -> bool {
    &&& r is Ok <==> all_ok(resolved)
    &&& r matches Ok(calls) ==> calls@.len() == resolved.len() && forall|i: int|
        0 <= i < calls@.len() ==> {
            &&& (#[trigger] calls@[i]).zone_id@ == zone_id
            &&& resolved[i] matches Ok(n) && calls@[i].record_id == n.provider_id
                && calls@[i].name == n.logical_name
            &&& calls@[i].address == address
        }
    &&& r matches Err(e) ==> exists|i: int|
        first_failure_at(resolved, i) && resolved[i] == Err::<ResolvedName, CduError>(e)
}

/// The update calls of one run in `zone`: one per resolved record, in order, each
/// setting `address` on the record under its own name. When any record
/// failed to resolve there is no call: the first failure is the result.
pub fn plan_updates(
    zone: &ResolvedName,
    resolved: Vec<Result<ResolvedName, CduError>>,
    address: [u8; 4],
) -> (r: Result<Vec<UpdateCall>, CduError>)
    ensures
        updates_planned(zone.provider_id@, resolved@, address, r),
{
    let names = match all_or_first_failure(resolved) {
        Err(e) => {
            return Err(e);
        },
        Ok(ns) => ns,
    };
    let mut calls: Vec<UpdateCall> = Vec::new();
    let mut i: usize = 0;
    while i < names.len()
        invariant
            i <= names@.len(),
            names@.len() == resolved@.len(),
            forall|k: int|
                0 <= k < names@.len() ==> resolved@[k] == Ok::<ResolvedName, CduError>(
                    #[trigger] names@[k],
                ),
            calls@.len() == i,
            forall|k: int|
                0 <= k < i ==> {
                    &&& (#[trigger] calls@[k]).zone_id@ == zone.provider_id@
                    &&& calls@[k].record_id == names@[k].provider_id
                    &&& calls@[k].name == names@[k].logical_name
                    &&& calls@[k].address == address
                },
        decreases names@.len() - i,
    {
        let n = &names[i];
        calls.push(
            UpdateCall {
                zone_id: zone.provider_id.clone(),
                record_id: n.provider_id.clone(),
                name: n.logical_name.clone(),
                address,
            },
        );
        i = i + 1;
    }
    Ok(calls)
}

/// With a time-to-live of zero nothing is ever cached: the cache is empty
/// and stays empty after any resolution, so every cache lookup misses and
/// each run lists the zone and every record at the provider.
pub proof fn lemma_ttl_zero_never_caches(c: Cdu, key: Seq<char>, id: Seq<char>)
    requires
        c.wf(),
        c.config().cache_seconds == 0,
    ensures
        c.entries() == empty_entries(),
        c.entries_after(key, id) == empty_entries(),
{
}

/// A resolved identifier stays cached: after a name was resolved with
/// caching on, the cache maps it to that identifier however many other names
/// are resolved afterwards, so a cache hit on the name returns it. The
/// states are successive values of one engine, the `i`-th resolution taking
/// `states[i]` to `states[i + 1]`.
pub proof fn lemma_resolved_id_stays_cached(
    states: Seq<Cdu>,
    keys: Seq<Seq<char>>,
    ids: Seq<Seq<char>>,
)
    requires
        keys.len() >= 1,
        ids.len() == keys.len(),
        states.len() == keys.len() + 1,
        states[0].config().cache_seconds > 0,
        forall|i: int|
            0 <= i < keys.len() ==> #[trigger] states[i + 1].entries() == states[i].entries_after(
                keys[i],
                ids[i],
            ) && states[i + 1].config() == states[i].config(),
        forall|i: int| 1 <= i < keys.len() ==> #[trigger] keys[i] != keys[0],
    ensures
        states.last().entries().contains_key(keys[0]),
        states.last().entries()[keys[0]] == ids[0],
{
    lemma_stays_cached_upto(states, keys, ids, keys.len() as int);
}

proof fn lemma_stays_cached_upto(
    states: Seq<Cdu>,
    keys: Seq<Seq<char>>,
    ids: Seq<Seq<char>>,
    n: int,
)
    requires
        1 <= n <= keys.len(),
        ids.len() == keys.len(),
        states.len() == keys.len() + 1,
        states[0].config().cache_seconds > 0,
        forall|i: int|
            0 <= i < keys.len() ==> #[trigger] states[i + 1].entries() == states[i].entries_after(
                keys[i],
                ids[i],
            ) && states[i + 1].config() == states[i].config(),
        forall|i: int| 1 <= i < keys.len() ==> #[trigger] keys[i] != keys[0],
    ensures
        states[n].config() == states[0].config(),
        states[n].entries().contains_key(keys[0]),
        states[n].entries()[keys[0]] == ids[0],
    decreases n,
{
    assert(states[0int + 1].entries() == states[0].entries_after(keys[0], ids[0]));
    if n > 1 {
        lemma_stays_cached_upto(states, keys, ids, n - 1);
        assert(states[(n - 1) + 1].entries() == states[n - 1].entries_after(
            keys[n - 1],
            ids[n - 1],
        ));
        assert(keys[n - 1] != keys[0]);
    }
}

/// Record updates are gated on every resolution: when any record failed
/// to resolve, no update call is planned, and the failure of the first such
/// record is the result.
pub proof fn lemma_no_update_after_failed_resolution(
    zone_id: Seq<char>,
    resolved: Seq<Result<ResolvedName, CduError>>,
    address: [u8; 4],
    r: Result<Vec<UpdateCall>, CduError>,
    i: int,
)
    requires
        updates_planned(zone_id, resolved, address, r),
        0 <= i < resolved.len(),
        resolved[i] is Err,
    ensures
        r is Err,
        exists|j: int| j <= i && first_failure_at(resolved, j) && resolved[j] == Err::<
            ResolvedName,
            CduError,
        >(r->Err_0),
{
}

/// Updates are never skipped: a run whose records all resolved plans one
/// call for every record, setting the address even when the records may
/// already hold it, so two runs on the same resolutions and address plan
/// the same calls.
pub proof fn lemma_every_record_updated(
    zone_id: Seq<char>,
    resolved: Seq<Result<ResolvedName, CduError>>,
    address: [u8; 4],
    r1: Result<Vec<UpdateCall>, CduError>,
    r2: Result<Vec<UpdateCall>, CduError>,
)
    requires
        updates_planned(zone_id, resolved, address, r1),
        updates_planned(zone_id, resolved, address, r2),
        all_ok(resolved),
    ensures
        r1 is Ok && r2 is Ok,
        r1->Ok_0@.len() == resolved.len(),
        calls_view(r1->Ok_0@) == calls_view(r2->Ok_0@),
{
    assert(calls_view(r1->Ok_0@) =~= calls_view(r2->Ok_0@));
}

/// The outcome of a run once its updates returned: every record's outcome
/// in order when all succeeded, else the first failure.
pub fn collect_outcomes(outcomes: Vec<Result<UpdateOutcome, CduError>>) -> (r: Result<
    Vec<UpdateOutcome>,
    CduError,
>)
    ensures
        r is Ok <==> all_ok(outcomes@),
        r matches Ok(vs) ==> vs@.len() == outcomes@.len() && forall|i: int|
            0 <= i < vs@.len() ==> outcomes@[i] == Ok::<UpdateOutcome, CduError>(
                #[trigger] vs@[i],
            ),
        r matches Err(e) ==> exists|i: int|
            first_failure_at(outcomes@, i) && outcomes@[i] == Err::<UpdateOutcome, CduError>(e),
{
    all_or_first_failure(outcomes)
}

} // verus!
