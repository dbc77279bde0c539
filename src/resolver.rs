//! The cache-or-fetch cascade that every data domain follows, and the
//! decisions around it: time-zone reconciliation of a cached record, the
//! address-lookup gate, the limits and keys of postal-zone queries and the
//! parameter of a time-zone request.
//!
//! The cascade is a state machine. It names the next step
//! ([`CascadeAction`]); whoever drives it performs the step against the
//! cache backend or the upstream provider and hands back what happened
//! ([`CascadeEvent`]).

use vstd::prelude::*;
use crate::geo::{geo_text, store_key, Geo};
use crate::models::PcZone;
use crate::validate::{is_valid_zone_name, regex_matches};
use crate::store::{
    address_key, domain_key, domain_places, domain_prefix, domain_ttl, redis_set_addresses_checked,
    CacheWrite, Domain, ADDRESS_CHECK_TTL,
};
use crate::timezone::{reconcile, TzRow};

verus! {

/// Where a cascade stands.
#[derive(Clone, Copy, Debug, PartialEq, Eq)]
pub enum CascadePhase {
    /// Waiting for the cache read.
    Reading,
    /// The cache missed; waiting for the upstream provider.
    Fetching,
    /// The provider answered; waiting for the cache write.
    Writing,
    /// Finished.
    Done,
}

/// The step the driver is to perform next.
#[derive(Clone, Copy, Debug, PartialEq, Eq)]
pub enum CascadeAction {
    /// Read the cascade's key from the cache.
    ReadCache,
    /// Call the domain's upstream provider.
    FetchUpstream,
    /// Write the fetched value under the key with the cascade's expiry.
    WriteCache,
    /// Take the result.
    Finish,
}

/// What the driver observed. A cached value that does not decode is a
/// miss; a provider timeout or malformed answer is a failure.
pub enum CascadeEvent<T> {
    CacheHit(T),
    CacheMiss,
    Fetched(T),
    FetchFailed,
    /// The write was attempted; whether the backend took it does not
    /// matter, as a cache outage must not fail the request.
    Written,
}

/// One domain lookup in progress.
pub struct Cascade<T> {
    pub key: String,
    pub ttl_secs: u64,
    pub phase: CascadePhase,
    pub value: Option<T>,
    pub cached: bool,
}

/// The action that a phase calls for.
pub open spec fn action_of(phase: CascadePhase) -> CascadeAction {
    match phase {
        CascadePhase::Reading => CascadeAction::ReadCache,
        CascadePhase::Fetching => CascadeAction::FetchUpstream,
        CascadePhase::Writing => CascadeAction::WriteCache,
        CascadePhase::Done => CascadeAction::Finish,
    }
}

/// The cascade after an event. An event that does not fit the phase
/// leaves it as it was.
pub open spec fn cascade_step<T>(c: Cascade<T>, ev: CascadeEvent<T>) -> Cascade<T> {
    match (c.phase, ev) {
        (CascadePhase::Reading, CascadeEvent::CacheHit(v)) => Cascade {
            phase: CascadePhase::Done,
            value: Some(v),
            cached: true,
            ..c
        },
        (CascadePhase::Reading, CascadeEvent::CacheMiss) => Cascade {
            phase: CascadePhase::Fetching,
            ..c
        },
        (CascadePhase::Fetching, CascadeEvent::Fetched(v)) => Cascade {
            phase: CascadePhase::Writing,
            value: Some(v),
            cached: false,
            ..c
        },
        (CascadePhase::Fetching, CascadeEvent::FetchFailed) => Cascade {
            phase: CascadePhase::Done,
            value: None,
            cached: false,
            ..c
        },
        (CascadePhase::Writing, CascadeEvent::Written) => Cascade {
            phase: CascadePhase::Done,
            ..c
        },
        _ => c,
    }
}

impl<T> Cascade<T> {
    /// A lookup of `key` whose fetched value is kept for `ttl_secs`
    /// (zero: no expiry). It starts with a cache read.
    pub fn new(key: String, ttl_secs: u64) -> (r: Cascade<T>)
        ensures
            r.key == key,
            r.ttl_secs == ttl_secs,
            r.phase == CascadePhase::Reading,
            r.value is None,
            !r.cached,
    {
        Cascade { key, ttl_secs, phase: CascadePhase::Reading, value: None, cached: false }
    }

    /// A lookup in a domain, with the domain's expiry.
    pub fn for_domain(domain: Domain, key: String) -> (r: Cascade<T>)
        ensures
            r.key == key,
            r.ttl_secs == domain_ttl(domain),
            r.phase == CascadePhase::Reading,
            r.value is None,
            !r.cached,
    {
        Cascade::new(key, domain.ttl_secs())
    }

    /// The step to perform next.
    pub fn next_action(&self) -> (r: CascadeAction)
        ensures
            r == action_of(self.phase),
    {
        match self.phase {
            CascadePhase::Reading => CascadeAction::ReadCache,
            CascadePhase::Fetching => CascadeAction::FetchUpstream,
            CascadePhase::Writing => CascadeAction::WriteCache,
            CascadePhase::Done => CascadeAction::Finish,
        }
    }

    /// Takes in what the driver observed.
    pub fn step(&mut self, ev: CascadeEvent<T>)
        ensures
            *final(self) == cascade_step(*old(self), ev),
    {
        match (self.phase, ev) {
            (CascadePhase::Reading, CascadeEvent::CacheHit(v)) => {
                self.phase = CascadePhase::Done;
                self.value = Some(v);
                self.cached = true;
            },
            (CascadePhase::Reading, CascadeEvent::CacheMiss) => {
                self.phase = CascadePhase::Fetching;
            },
            (CascadePhase::Fetching, CascadeEvent::Fetched(v)) => {
                self.phase = CascadePhase::Writing;
                self.value = Some(v);
                self.cached = false;
            },
            (CascadePhase::Fetching, CascadeEvent::FetchFailed) => {
                self.phase = CascadePhase::Done;
                self.value = None;
                self.cached = false;
            },
            (CascadePhase::Writing, CascadeEvent::Written) => {
                self.phase = CascadePhase::Done;
            },
            _ => {},
        }
    }

    /// The value, if any, and whether it came from the cache.
    pub fn finish(self) -> (r: (Option<T>, bool))
        ensures
            r == (self.value, self.cached),
    {
        (self.value, self.cached)
    }
}

/// A cascade that starts with a hit ends at once with the cached value,
/// marked as cached, and never calls the provider. One that misses calls
/// the provider; a value it returns is written back before the end and
/// is not marked as cached; a failure ends with no value and no write.
pub proof fn lemma_cascade_paths<T>(c: Cascade<T>, v: T, w: T)
    requires
        c.phase == CascadePhase::Reading,
    ensures
        ({
            let hit = cascade_step(c, CascadeEvent::CacheHit(v));
            action_of(hit.phase) == CascadeAction::Finish && hit.value == Some(v) && hit.cached
        }),
        ({
            let miss = cascade_step(c, CascadeEvent::CacheMiss);
            let got = cascade_step(miss, CascadeEvent::Fetched(w));
            let end = cascade_step(got, CascadeEvent::Written);
            &&& action_of(miss.phase) == CascadeAction::FetchUpstream
            &&& action_of(got.phase) == CascadeAction::WriteCache
            &&& action_of(end.phase) == CascadeAction::Finish
            &&& end.value == Some(w) && !end.cached
        }),
        ({
            let miss = cascade_step(c, CascadeEvent::CacheMiss);
            let failed = cascade_step(miss, CascadeEvent::<T>::FetchFailed);
            action_of(failed.phase) == CascadeAction::Finish && failed.value is None && !failed.cached
        }),
{
}

/// Ends a time-zone cascade: a record served from cache is aged to the
/// target instant, or to the current time when none is given; a fresh
/// record is returned as fetched.
pub fn finish_timezone(c: Cascade<TzRow>, target: Option<i64>) -> (r: (Option<TzRow>, bool))
    ensures
        r.1 == c.cached,
        c.value is None ==> r.0 is None,
        c.value is Some && !c.cached ==> r.0 == c.value,
        c.value is Some && c.cached ==> r.0 is Some,
        c.value is Some && c.cached && target is Some ==> r.0->0@ == reconcile(
            c.value->0@,
            target->0,
        ),
        c.value is Some && c.cached ==> exists|t: i64| r.0->0@ == reconcile(c.value->0@, t),
{
    let (value, cached) = c.finish();
    match value {
        Some(mut row) => {
            if cached {
                row.update_time(target);
            }
            (Some(row), cached)
        },
        None => (None, cached),
    }
}

/// The nearest zone's addresses are to be looked up remotely: it has none
/// and the registry holds no marker for its code.
pub fn needs_address_lookup(zone: &PcZone, already_checked: bool) -> (r: bool)
    ensures
        r == (zone.addresses@.len() == 0 && !already_checked),
{
    !zone.has_addresses() && !already_checked
}

/// Applies the answer of a remote address lookup to a zone. Addresses
/// found are attached and no marker is written; an empty or failed answer
/// leaves the zone as it was and yields the registry marker for its code.
pub fn settle_address_lookup(zone: &mut PcZone, found: Option<Vec<String>>) -> (marker: Option<
    CacheWrite,
>)
    ensures
        match found {
            Some(a) if a@.len() > 0 => *final(zone) == (PcZone { addresses: a, ..*old(zone) })
                && marker is None,
            _ => {
                &&& *final(zone) == *old(zone)
                &&& marker is Some
                &&& marker->0.key@ == address_key(old(zone).pc@)
                &&& marker->0.value@ == seq!['1']
                &&& marker->0.expiry_secs == ADDRESS_CHECK_TTL
            },
        },
{
    match found {
        Some(a) => {
            if a.len() > 0 {
                zone.add_addresses(a);
                None
            } else {
                Some(redis_set_addresses_checked(zone.pc.as_str()))
            }
        },
        None => Some(redis_set_addresses_checked(zone.pc.as_str())),
    }
}

/// Fewest and most postal zones a query may ask for.
pub const MIN_ZONE_LIMIT: u32 = 2;

pub const MAX_ZONE_LIMIT: u32 = 1_000;

/// The result limit sent to the postal-zone provider, clamped to
/// `[2, 1000]`.
pub fn clamp_zone_limit(limit: u32) -> (r: u32)
    ensures
        MIN_ZONE_LIMIT <= r <= MAX_ZONE_LIMIT,
        MIN_ZONE_LIMIT <= limit <= MAX_ZONE_LIMIT ==> r == limit,
        limit < MIN_ZONE_LIMIT ==> r == MIN_ZONE_LIMIT,
        limit > MAX_ZONE_LIMIT ==> r == MAX_ZONE_LIMIT,
{
    if limit < MIN_ZONE_LIMIT {
        MIN_ZONE_LIMIT
    } else if limit > MAX_ZONE_LIMIT {
        MAX_ZONE_LIMIT
    } else {
        limit
    }
}

/// Radius (metres) and zone count of a batch address refresh: 2 km and 10
/// zones by default, at most 20 km and 50 zones.
pub fn address_batch_bounds(radius_m: Option<u32>, limit: Option<u32>) -> (r: (u32, u32))
    ensures
        r.0 == match radius_m {
            Some(m) => if m > 20_000 {
                20_000
            } else {
                m
            },
            None => 2_000,
        },
        r.1 == match limit {
            Some(l) => if l > 50 {
                50
            } else {
                l
            },
            None => 10,
        },
{
    let m = match radius_m {
        Some(m) => m,
        None => 2_000,
    };
    let l = match limit {
        Some(l) => l,
        None => 10,
    };
    (if m > 20_000 { 20_000 } else { m }, if l > 50 { 50 } else { l })
}

/// The region where batch address refreshes are served: north of 49°N,
/// between 10°W and 1.8°E (both exclusive).
pub open spec fn in_address_region(lat: int, lng: int) -> bool {
    lat > 490_000_000 && -100_000_000 < lng < 18_000_000
}

pub fn within_address_region(geo: Geo) -> (r: bool)
    ensures
        r == in_address_region(geo.lat as int, geo.lng as int),
{
    geo.lat > 490_000_000 && geo.lng < 18_000_000 && geo.lng > -100_000_000
}


/// The limit as the postal-zone provider receives it.
pub open spec fn clamped_limit(limit: u32) -> u32 {
    if limit < MIN_ZONE_LIMIT {
        MIN_ZONE_LIMIT
    } else if limit > MAX_ZONE_LIMIT {
        MAX_ZONE_LIMIT
    } else {
        limit
    }
}

/// The key of a postal query: the limit is clamped first, so that queries
/// the provider cannot tell apart share an entry.
pub fn zone_query_key(domain: Domain, geo: Geo, radius_m: u32, limit: u32) -> (r: String)
    requires
        geo.wf(),
    ensures
        r@ == store_key(
            domain_prefix(domain),
            geo.lat as int,
            geo.lng as int,
            domain_places(domain) as nat,
            Some(radius_m),
            Some(clamped_limit(limit)),
        ),
{
    domain_key(domain, geo, Some(radius_m), Some(clamp_zone_limit(limit)))
}


/// The query parameter of a time-zone request: the zone name when one is
/// given, otherwise the coordinate. A zone name alone must look like one.
pub open spec fn tz_query(geo: Option<Geo>, zone: Option<Seq<char>>) -> Option<(Seq<char>, Seq<char>)> {
    match zone {
        Some(z) => if geo is Some || regex_matches(z, "^\\w+/\\w+"@) {
            Some(("zn"@, z))
        } else {
            None
        },
        None => match geo {
            Some(g) => Some(("loc"@, geo_text(g))),
            None => None,
        },
    }
}

/// The name and value of the parameter that selects the zone, or `None`
/// when the request cannot be made.
pub fn timezone_query(geo: Option<Geo>, zone: Option<&str>) -> (r: Option<(String, String)>)
    ensures
        match r {
            Some((k, v)) => tz_query(geo, match zone {
                Some(z) => Some(z@),
                None => None,
            }) == Some((k@, v@)),
            None => tz_query(geo, match zone {
                Some(z) => Some(z@),
                None => None,
            }) is None,
        },
{
    match zone {
        Some(z) => {
            if geo.is_some() || is_valid_zone_name(z) {
                Some((String::from_str("zn"), String::from_str(z)))
            } else {
                None
            }
        },
        None => match geo {
            Some(g) => Some((String::from_str("loc"), g.to_string())),
            None => None,
        },
    }
}

}
