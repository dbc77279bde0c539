//! The composite lookup for a coordinate as a state machine: place first,
//! postal zones only where the place's country keeps them, a gated address
//! lookup for the nearest zone alone, then weather, points of interest and
//! encyclopaedia entries. The driver performs each step (each domain
//! through its own cache cascade) and reports back.

use vstd::prelude::*;
use crate::models::{has_postal_zones, postal_zones_supported, text_opt, GeoNearby, LocationInfo, PcZone};
use crate::resolver::{needs_address_lookup, settle_address_lookup};
use crate::store::{
    address_check_key, address_key, redis_addresses_have_been_checked, redis_set_addresses_checked,
    u8_of_json, CacheWrite, ADDRESS_CHECK_TTL,
};

verus! {

/// Where a composite lookup stands.
#[derive(Clone, Copy, Debug, PartialEq, Eq)]
pub enum AggregatePhase {
    Place,
    Zones,
    Marker,
    Addresses,
    StoreMarker,
    Weather,
    Poi,
    Wiki,
    Done,
}

/// The step the driver is to perform next.
#[derive(Debug)]
pub enum AggregateAction {
    /// Resolve the place of the coordinate.
    ResolvePlace,
    /// Resolve the postal zones around the coordinate.
    ResolveZones,
    /// Read this registry key.
    ReadMarker(String),
    /// Ask the address provider about this postal code.
    LookupAddresses(String),
    /// Perform this registry write.
    WriteMarker(CacheWrite),
    ResolveWeather,
    ResolvePoi,
    ResolveWiki,
    /// Take the result.
    Finish,
}

/// What the driver observed.
pub enum AggregateEvent<W, P, K> {
    /// The place, if any, and whether it came from the cache.
    PlaceResolved(Option<GeoNearby>, bool),
    /// The zones, nearest first, and whether they came from the cache.
    ZonesResolved(Vec<PcZone>, bool),
    /// What the read of the registry key returned.
    MarkerRead(Option<String>),
    /// The provider's answer: addresses, none, or a failure.
    AddressesFound(Option<Vec<String>>),
    MarkerWritten,
    WeatherResolved(Option<W>),
    PoiResolved(Option<Vec<P>>),
    WikiResolved(Option<Vec<K>>),
}

/// A composite lookup in progress.
pub struct Aggregation<W, P, K> {
    /// Country-code prefixes of the regions whose postal zones are kept.
    pub zone_regions: Vec<String>,
    pub phase: AggregatePhase,
    pub place: Option<GeoNearby>,
    pub place_cached: bool,
    pub zones: Vec<PcZone>,
    /// The zones differ from what the cache holds and are to be written.
    pub zones_dirty: bool,
    pub weather: Option<W>,
    pub poi: Vec<P>,
    pub wikipedia: Vec<K>,
}

/// The place's country keeps postal zones.
pub open spec fn place_has_zones(place: Option<GeoNearby>, regions: Seq<Seq<char>>) -> bool {
    match place {
        Some(p) => has_postal_zones(text_opt(p.cc), regions),
        None => false,
    }
}

/// A read of the registry found a marker.
pub open spec fn marker_found(stored: Option<String>) -> bool {
    stored matches Some(s) && u8_of_json(s@) is Some
}

/// The event is the one the phase waits for.
pub open spec fn event_fits<W, P, K>(phase: AggregatePhase, ev: AggregateEvent<W, P, K>) -> bool {
    match (phase, ev) {
        (AggregatePhase::Place, AggregateEvent::PlaceResolved(_, _)) => true,
        (AggregatePhase::Zones, AggregateEvent::ZonesResolved(_, _)) => true,
        (AggregatePhase::Marker, AggregateEvent::MarkerRead(_)) => true,
        (AggregatePhase::Addresses, AggregateEvent::AddressesFound(_)) => true,
        (AggregatePhase::StoreMarker, AggregateEvent::MarkerWritten) => true,
        (AggregatePhase::Weather, AggregateEvent::WeatherResolved(_)) => true,
        (AggregatePhase::Poi, AggregateEvent::PoiResolved(_)) => true,
        (AggregatePhase::Wiki, AggregateEvent::WikiResolved(_)) => true,
        _ => false,
    }
}

impl<W, P, K> Aggregation<W, P, K> {
    /// The phases of the address gate have a nearest zone without
    /// addresses to work on.
    pub open spec fn wf(&self) -> bool {
        (self.phase == AggregatePhase::Marker || self.phase == AggregatePhase::Addresses
            || self.phase == AggregatePhase::StoreMarker) ==> self.zones@.len() > 0 && (
        self.zones@[0].addresses@.len() == 0)
    }

    /// A lookup that starts with the place; postal zones are looked up for
    /// places whose country code begins with one of `zone_regions`.
    pub fn new(zone_regions: Vec<String>) -> (r: Aggregation<W, P, K>)
        ensures
            r.zone_regions == zone_regions,
            r.wf(),
            r.phase == AggregatePhase::Place,
            r.place is None,
            r.zones@.len() == 0,
            !r.zones_dirty,
    {
        Aggregation {
            zone_regions,
            phase: AggregatePhase::Place,
            place: None,
            place_cached: false,
            zones: Vec::new(),
            zones_dirty: false,
            weather: None,
            poi: Vec::new(),
            wikipedia: Vec::new(),
        }
    }

    /// The step to perform next.
    pub fn next_action(&self) -> (r: AggregateAction)
        requires
            self.wf(),
        ensures
            self.phase == AggregatePhase::Place ==> r is ResolvePlace,
            self.phase == AggregatePhase::Zones ==> r is ResolveZones,
            self.phase == AggregatePhase::Marker ==> (r matches AggregateAction::ReadMarker(k) && k@
                == address_key(self.zones@[0].pc@)),
            self.phase == AggregatePhase::Addresses ==> (r matches AggregateAction::LookupAddresses(
                c,
            ) && c@ == self.zones@[0].pc@),
            self.phase == AggregatePhase::StoreMarker ==> (r matches AggregateAction::WriteMarker(w)
                && w.key@ == address_key(self.zones@[0].pc@) && w.value@ == seq!['1'] && w.expiry_secs
                == ADDRESS_CHECK_TTL),
            self.phase == AggregatePhase::Weather ==> r is ResolveWeather,
            self.phase == AggregatePhase::Poi ==> r is ResolvePoi,
            self.phase == AggregatePhase::Wiki ==> r is ResolveWiki,
            self.phase == AggregatePhase::Done ==> r is Finish,
    {
        match self.phase {
            AggregatePhase::Place => AggregateAction::ResolvePlace,
            AggregatePhase::Zones => AggregateAction::ResolveZones,
            AggregatePhase::Marker => AggregateAction::ReadMarker(
                address_check_key(self.zones[0].pc.as_str()),
            ),
            AggregatePhase::Addresses => AggregateAction::LookupAddresses(self.zones[0].pc.clone()),
            AggregatePhase::StoreMarker => AggregateAction::WriteMarker(
                redis_set_addresses_checked(self.zones[0].pc.as_str()),
            ),
            AggregatePhase::Weather => AggregateAction::ResolveWeather,
            AggregatePhase::Poi => AggregateAction::ResolvePoi,
            AggregatePhase::Wiki => AggregateAction::ResolveWiki,
            AggregatePhase::Done => AggregateAction::Finish,
        }
    }

    /// The phase after the address gate, or the weather when the nearest
    /// zone already has addresses (or there is none).
    fn gate_or_weather(&mut self)
        ensures
            final(self).zones == old(self).zones,
            final(self).zone_regions == old(self).zone_regions,
            final(self).place == old(self).place,
            final(self).place_cached == old(self).place_cached,
            final(self).zones_dirty == old(self).zones_dirty,
            final(self).weather == old(self).weather,
            final(self).poi == old(self).poi,
            final(self).wikipedia == old(self).wikipedia,
            final(self).phase == if old(self).zones@.len() > 0 && old(self).zones@[0].addresses@.len()
                == 0 {
                AggregatePhase::Marker
            } else {
                AggregatePhase::Weather
            },
            final(self).wf(),
    {
        if self.zones.len() > 0 && !self.zones[0].has_addresses() {
            self.phase = AggregatePhase::Marker;
        } else {
            self.phase = AggregatePhase::Weather;
        }
    }

    /// Takes in what the driver observed. An event that does not fit the
    /// phase changes nothing.
    pub fn step(&mut self, ev: AggregateEvent<W, P, K>)
        requires
            old(self).wf(),
        ensures
            final(self).wf(),
            !event_fits(old(self).phase, ev) ==> *final(self) == *old(self),
            final(self).zone_regions == old(self).zone_regions,
            final(self).place_cached == (if old(self).phase == AggregatePhase::Place
                && ev is PlaceResolved {
                ev->PlaceResolved_1
            } else {
                old(self).place_cached
            }),
            old(self).phase == AggregatePhase::Place && ev is PlaceResolved ==> {
                &&& final(self).place == ev->PlaceResolved_0
                &&& final(self).phase == if place_has_zones(
                    ev->PlaceResolved_0,
                    old(self).zone_regions.deep_view(),
                ) {
                    AggregatePhase::Zones
                } else {
                    AggregatePhase::Weather
                }
            },
            old(self).phase == AggregatePhase::Zones && ev is ZonesResolved ==> {
                let zs = ev->ZonesResolved_0;
                let cached = ev->ZonesResolved_1;
                &&& final(self).zones@.len() == zs@.len()
                &&& forall|i: int|
                    0 <= i < zs@.len() ==> #[trigger] final(self).zones@[i] == if i == 0 && !cached {
                        PcZone { pn: final(self).zones@[0].pn, ..zs@[0] }
                    } else {
                        zs@[i]
                    }
                &&& (!cached && zs@.len() > 0 && old(self).place is Some) ==> (final(self).zones@[0].pn is Some && final(self).zones@[0].pn->0@ == old(self).place->0.name@)
                &&& final(self).zones_dirty == (!cached && zs@.len() > 0)
                &&& final(self).phase == if zs@.len() > 0 && zs@[0].addresses@.len() == 0 {
                    AggregatePhase::Marker
                } else {
                    AggregatePhase::Weather
                }
            },
            old(self).phase == AggregatePhase::Marker && ev is MarkerRead ==> final(self).phase == if marker_found(ev->MarkerRead_0) {
                AggregatePhase::Weather
            } else {
                AggregatePhase::Addresses
            },
            old(self).phase == AggregatePhase::Addresses && ev is AddressesFound ==> match ev->AddressesFound_0 {
                Some(a) if a@.len() > 0 => {
                    &&& final(self).zones@ == old(self).zones@.update(
                        0,
                        PcZone { addresses: a, ..old(self).zones@[0] },
                    )
                    &&& final(self).zones_dirty
                    &&& final(self).phase == AggregatePhase::Weather
                },
                _ => {
                    &&& final(self).zones@ == old(self).zones@
                    &&& final(self).zones_dirty == old(self).zones_dirty
                    &&& final(self).phase == AggregatePhase::StoreMarker
                },
            },
            old(self).phase == AggregatePhase::StoreMarker && ev is MarkerWritten ==> final(self).phase
                == AggregatePhase::Weather,
            old(self).phase == AggregatePhase::Weather && ev is WeatherResolved ==> final(self).phase
                == AggregatePhase::Poi && final(self).weather == ev->WeatherResolved_0,
            old(self).phase == AggregatePhase::Poi && ev is PoiResolved ==> final(self).phase
                == AggregatePhase::Wiki && final(self).poi@ == match ev->PoiResolved_0 {
                Some(p) => p@,
                None => Seq::empty(),
            },
            old(self).phase == AggregatePhase::Wiki && ev is WikiResolved ==> final(self).phase
                == AggregatePhase::Done && final(self).wikipedia@ == match ev->WikiResolved_0 {
                Some(k) => k@,
                None => Seq::empty(),
            },
            old(self).phase != AggregatePhase::Zones && old(self).phase != AggregatePhase::Addresses
                ==> final(self).zones == old(self).zones && final(self).zones_dirty == old(self).zones_dirty,
            old(self).phase != AggregatePhase::Place ==> final(self).place == old(self).place,
            old(self).phase != AggregatePhase::Weather ==> final(self).weather == old(self).weather,
            old(self).phase != AggregatePhase::Poi ==> final(self).poi == old(self).poi,
            old(self).phase != AggregatePhase::Wiki ==> final(self).wikipedia == old(self).wikipedia,
    {
        match (self.phase, ev) {
            (AggregatePhase::Place, AggregateEvent::PlaceResolved(place, cached)) => {
                let zoned = match &place {
                    Some(p) => postal_zones_supported(&p.cc, &self.zone_regions),
                    None => false,
                };
                self.place = place;
                self.place_cached = cached;
                self.phase = if zoned {
                    AggregatePhase::Zones
                } else {
                    AggregatePhase::Weather
                };
            },
            (AggregatePhase::Zones, AggregateEvent::ZonesResolved(zones, cached)) => {
                let mut zones = zones;
                let ghost given = zones@;
                if !cached && zones.len() > 0 {
                    let mut first = zones.remove(0);
                    match &self.place {
                        Some(p) => first.add_pn(p.name.as_str()),
                        None => {},
                    }
                    zones.insert(0, first);
                    assert forall|i: int| 1 <= i < given.len() implies #[trigger] zones@[i]
                        == given[i] by {}
                }
                assert forall|i: int| 0 <= i < given.len() implies #[trigger] zones@[i] == if i == 0
                    && !cached {
                    PcZone { pn: zones@[0].pn, ..given[0] }
                } else {
                    given[i]
                } by {}
                self.zones = zones;
                self.zones_dirty = !cached && self.zones.len() > 0;
                self.gate_or_weather();
            },
            (AggregatePhase::Marker, AggregateEvent::MarkerRead(stored)) => {
                let checked = redis_addresses_have_been_checked(&stored);
                if needs_address_lookup(&self.zones[0], checked) {
                    self.phase = AggregatePhase::Addresses;
                } else {
                    self.phase = AggregatePhase::Weather;
                }
            },
            (AggregatePhase::Addresses, AggregateEvent::AddressesFound(found)) => {
                let mut nearest = self.zones.remove(0);
                let ghost before = nearest;
                let marker = settle_address_lookup(&mut nearest, found);
                self.zones.insert(0, nearest);
                if marker.is_some() {
                    self.phase = AggregatePhase::StoreMarker;
                } else {
                    self.zones_dirty = true;
                    self.phase = AggregatePhase::Weather;
                }
                proof {
                    assert(before == old(self).zones@[0]);
                    assert(self.zones@ =~= old(self).zones@.update(0, nearest));
                    if marker.is_some() {
                        assert(old(self).zones@.update(0, before) =~= old(self).zones@);
                    }
                }
            },
            (AggregatePhase::StoreMarker, AggregateEvent::MarkerWritten) => {
                self.phase = AggregatePhase::Weather;
            },
            (AggregatePhase::Weather, AggregateEvent::WeatherResolved(w)) => {
                self.weather = w;
                self.phase = AggregatePhase::Poi;
            },
            (AggregatePhase::Poi, AggregateEvent::PoiResolved(p)) => {
                self.poi = match p {
                    Some(items) => items,
                    None => Vec::new(),
                };
                self.phase = AggregatePhase::Wiki;
            },
            (AggregatePhase::Wiki, AggregateEvent::WikiResolved(k)) => {
                self.wikipedia = match k {
                    Some(items) => items,
                    None => Vec::new(),
                };
                self.phase = AggregatePhase::Done;
            },
            _ => {},
        }
    }

    /// The composite answer: marked as served from cache exactly when the
    /// place was.
    pub fn finish(self) -> (r: LocationInfo<W, P, K>)
        ensures
            r.valid == (self.place is Some),
            r.matched == (self.place is Some),
            r.num == self.zones@.len() as u32,
            r.has_poi == (self.poi@.len() > 0),
            r.has_wiki_entries == (self.wikipedia@.len() > 0),
            self.place is None ==> r.places@.len() == 0 && r.states@.len() == 0,
            self.place matches Some(p) ==> {
                &&& r.places@.len() == 1
                &&& r.places@[0].name@ == p.name@
                &&& r.places@[0].lat == p.lat && r.places@[0].lng == p.lng
                &&& r.states@.len() == 3
                &&& r.states@[0].name@ == p.admin_name@
                &&& r.states@[1].name@ == p.region@
                &&& r.states@[2].name@ == p.country_name@
            },
            r.cached == self.place_cached,
            r.has_pcs == (self.zones@.len() > 0),
            r.zone == (if self.zones@.len() > 0 {
                Some(self.zones@[0])
            } else {
                None::<PcZone>
            }),
            r.surrounding@ == (if self.zones@.len() > 0 {
                self.zones@.subrange(1, self.zones@.len() as int)
            } else {
                self.zones@
            }),
            r.has_nearest_address == (self.zones@.len() > 0 && self.zones@[0].addresses@.len() > 0),
            r.weather == self.weather,
            r.has_weather == (self.weather is Some),
            r.poi == self.poi,
            r.wikipedia == self.wikipedia,
    {
        let Aggregation { zone_regions: _, phase: _, place, place_cached, zones, zones_dirty: _, weather, poi, wikipedia } = self;
        let (places, states) = match &place {
            Some(p) => (p.to_places(), p.to_states()),
            None => (Vec::new(), Vec::new()),
        };
        let mut info = LocationInfo::new(zones, places, states, weather, poi, wikipedia);
        if place_cached {
            info.set_cached();
        }
        info
    }
}

}
