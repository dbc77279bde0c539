//! Location records and the composite response built from them.
//!
//! Distances and coordinates are fixed-point integers in units of `10^-7`
//! (degrees, metres or kilometres as each field says).

use vstd::prelude::*;
use vstd::string::StrSliceExecFns;
use crate::timezone::TzRow;

verus! {

/// The nearest postal code of a place and its distance in `10^-7` metres.
#[derive(Clone, Debug)]
pub struct PcInfo {
    pub v: String,
    pub m: i64,
}

impl PcInfo {
    pub fn new(code: &str, metres: i64) -> (r: PcInfo)
        ensures
            r.v@ == code@,
            r.m == metres,
    {
        PcInfo { v: String::from_str(code), m: metres }
    }
}

/// A short postal-code row of a nearest-codes query.
#[derive(Clone, Debug)]
pub struct PcRow {
    pub lat: i64,
    pub lng: i64,
    pub c: String,
    pub cy: String,
    pub d: String,
    pub pc: String,
    pub lc: String,
    pub w: String,
    pub distance: i64,
}

impl PcRow {
    /// The row's code and distance.
    pub fn as_info(&self) -> (r: PcInfo)
        ensures
            r.v@ == self.pc@,
            r.m == self.distance,
    {
        PcInfo::new(self.pc.as_str(), self.distance)
    }
}

/// A named point.
#[derive(Clone, Debug)]
pub struct SimplePlace {
    pub lng: i64,
    pub lat: i64,
    pub name: String,
}

impl SimplePlace {
    pub fn new(lat: i64, lng: i64, name: &str) -> (r: SimplePlace)
        ensures
            r.lat == lat,
            r.lng == lng,
            r.name@ == name@,
    {
        SimplePlace { lat, lng, name: String::from_str(name) }
    }
}

/// The nearest populated place of a coordinate and its hierarchy.
#[derive(Clone, Debug)]
pub struct GeoNearby {
    pub lng: i64,
    pub lat: i64,
    pub name: String,
    pub toponym: String,
    pub fcode: String,
    pub distance: i64,
    pub pop: u32,
    pub admin_name: String,
    pub region: String,
    pub cc: Option<String>,
    pub country_name: String,
    pub zone_name: Option<String>,
    pub pc: Option<PcInfo>,
}

impl GeoNearby {
    /// Attaches the nearest postal code; nothing else changes.
    pub fn add_pc(&mut self, info: PcInfo)
        ensures
            *final(self) == (GeoNearby { pc: Some(info), ..*old(self) }),
    {
        self.pc = Some(info);
    }

    /// The place itself as a named point.
    pub fn to_simple(&self) -> (r: SimplePlace)
        ensures
            r.lat == self.lat && r.lng == self.lng && r.name@ == self.name@,
    {
        SimplePlace::new(self.lat, self.lng, self.name.as_str())
    }

    /// The place as a one-element list.
    pub fn to_places(&self) -> (r: Vec<SimplePlace>)
        ensures
            r@.len() == 1,
            r@[0].lat == self.lat && r@[0].lng == self.lng && r@[0].name@ == self.name@,
    {
        let mut v = Vec::new();
        v.push(self.to_simple());
        v
    }

    /// Administrative area, region and country, each at the place's point.
    pub fn to_states(&self) -> (r: Vec<SimplePlace>)
        ensures
            r@.len() == 3,
            r@[0].name@ == self.admin_name@,
            r@[1].name@ == self.region@,
            r@[2].name@ == self.country_name@,
            forall|i: int| 0 <= i < 3 ==> r@[i].lat == self.lat && r@[i].lng == self.lng,
    {
        let mut v = Vec::new();
        v.push(SimplePlace::new(self.lat, self.lng, self.admin_name.as_str()));
        v.push(SimplePlace::new(self.lat, self.lng, self.region.as_str()));
        v.push(SimplePlace::new(self.lat, self.lng, self.country_name.as_str()));
        v
    }
}

/// An optional text as characters.
pub open spec fn text_opt(t: Option<String>) -> Option<Seq<char>> {
    match t {
        Some(s) => Some(s@),
        None => None,
    }
}

/// The text begins with the prefix.
pub open spec fn has_prefix(s: Seq<char>, prefix: Seq<char>) -> bool {
    prefix.len() <= s.len() && s.subrange(0, prefix.len() as int) == prefix
}

/// The country code begins with one of the region prefixes that keep
/// postal-zone data.
pub open spec fn has_postal_zones(cc: Option<Seq<char>>, regions: Seq<Seq<char>>) -> bool {
    match cc {
        Some(c) => exists|i: int| 0 <= i < regions.len() && has_prefix(c, #[trigger] regions[i]),
        None => false,
    }
}

/// Whether `s` begins with `prefix`.
pub fn starts_with(s: &str, prefix: &str) -> (r: bool)
    ensures
        r == has_prefix(s@, prefix@),
{
    let n = prefix.unicode_len();
    if n > s.unicode_len() {
        return false;
    }
    let mut i: usize = 0;
    while i < n
        invariant
            n == prefix@.len(),
            n <= s@.len(),
            i <= n,
            forall|j: int| 0 <= j < i ==> s@[j] == prefix@[j],
        decreases n - i,
    {
        if s.get_char(i) != prefix.get_char(i) {
            assert(s@.subrange(0, n as int)[i as int] != prefix@[i as int]);
            return false;
        }
        i = i + 1;
    }
    assert(s@.subrange(0, n as int) =~= prefix@);
    true
}

/// Whether postal zones are looked up for a place with this country code,
/// given the region prefixes whose postal-zone data is available.
pub fn postal_zones_supported(cc: &Option<String>, regions: &Vec<String>) -> (r: bool)
    ensures
        r == has_postal_zones(text_opt(*cc), regions.deep_view()),
{
    match cc {
        Some(c) => {
            let mut i: usize = 0;
            while i < regions.len()
                invariant
                    text_opt(*cc) == Some(c@),
                    i <= regions@.len(),
                    forall|j: int| 0 <= j < i ==> !has_prefix(c@, #[trigger] regions.deep_view()[j]),
                decreases regions@.len() - i,
            {
                assert(regions.deep_view()[i as int] == regions@[i as int]@);
                if starts_with(c.as_str(), regions[i].as_str()) {
                    assert(regions.deep_view().len() == regions@.len());
                    assert(has_prefix(c@, regions.deep_view()[i as int]));
                    assert(has_postal_zones(Some(c@), regions.deep_view()));
                    return true;
                }
                i = i + 1;
            }
            false
        },
        None => false,
    }
}

/// A postal zone: a code with its position, administrative codes and,
/// once resolved, its street addresses.
#[derive(Clone, Debug)]
pub struct PcZone {
    pub pc: String,
    pub addresses: Vec<String>,
    pub lat: i64,
    pub lng: i64,
    pub alt: i64,
    pub n: i64,
    pub e: i64,
    pub c: String,
    pub cy: String,
    pub d: String,
    pub wc: String,
    pub cs: String,
    pub lc: String,
    pub w: String,
    pub gr: String,
    pub modified_at: String,
    pub dist: i64,
    pub pn: Option<String>,
}

impl PcZone {
    pub fn has_addresses(&self) -> (r: bool)
        ensures
            r == (self.addresses@.len() > 0),
    {
        self.addresses.len() > 0
    }

    /// Replaces the addresses; nothing else changes.
    pub fn add_addresses(&mut self, addresses: Vec<String>)
        ensures
            *final(self) == (PcZone { addresses, ..*old(self) }),
    {
        self.addresses = addresses;
    }

    /// Records the name of the place the zone was found for.
    pub fn add_pn(&mut self, place_name: &str)
        ensures
            final(self).pn is Some,
            final(self).pn->0@ == place_name@,
            *final(self) == (PcZone { pn: final(self).pn, ..*old(self) }),
    {
        self.pn = Some(String::from_str(place_name));
    }
}

/// The composite answer for a coordinate: place, hierarchy, postal zones
/// (nearest apart from the surrounding ones), weather, points of interest
/// and encyclopaedia entries, with presence flags derived from them.
#[derive(Clone, Debug)]
pub struct LocationInfo<W, P, K> {
    pub matched: bool,
    pub valid: bool,
    pub has_weather: bool,
    pub has_poi: bool,
    pub has_wiki_entries: bool,
    pub has_nearest_address: bool,
    pub has_pcs: bool,
    pub num: u32,
    pub zone: Option<PcZone>,
    pub places: Vec<SimplePlace>,
    pub states: Vec<SimplePlace>,
    pub surrounding: Vec<PcZone>,
    pub cached: bool,
    pub weather: Option<W>,
    pub poi: Vec<P>,
    pub wikipedia: Vec<K>,
}

impl<W, P, K> LocationInfo<W, P, K> {
    /// Assembles the answer. The first zone is the nearest; the others are
    /// the surrounding ones. Not marked as served from cache.
    pub fn new(
        zones: Vec<PcZone>,
        places: Vec<SimplePlace>,
        states: Vec<SimplePlace>,
        weather: Option<W>,
        poi: Vec<P>,
        wikipedia: Vec<K>,
    ) -> (r: LocationInfo<W, P, K>)
        ensures
            r.valid == (places@.len() > 0),
            r.matched == (places@.len() > 0),
            r.has_poi == (poi@.len() > 0),
            r.has_wiki_entries == (wikipedia@.len() > 0),
            r.has_weather == (weather is Some),
            r.has_pcs == (zones@.len() > 0),
            r.num == zones@.len() as u32,
            r.zone == (if zones@.len() > 0 {
                Some(zones@[0])
            } else {
                None::<PcZone>
            }),
            r.surrounding@ == (if zones@.len() > 0 {
                zones@.subrange(1, zones@.len() as int)
            } else {
                zones@
            }),
            r.has_nearest_address == (zones@.len() > 0 && zones@[0].addresses@.len() > 0),
            r.places == places,
            r.states == states,
            r.weather == weather,
            r.poi == poi,
            r.wikipedia == wikipedia,
            !r.cached,
    {
        let valid = places.len() > 0;
        let has_poi = poi.len() > 0;
        let has_wiki_entries = wikipedia.len() > 0;
        let has_weather = weather.is_some();
        let num = zones.len() as u32;
        let has_pcs = zones.len() > 0;
        let mut surrounding = zones;
        let zone = if surrounding.len() > 0 {
            Some(surrounding.remove(0))
        } else {
            None
        };
        let has_nearest_address = match &zone {
            Some(z) => z.has_addresses(),
            None => false,
        };
        proof {
            if zones@.len() > 0 {
                assert(surrounding@ =~= zones@.subrange(1, zones@.len() as int));
            }
        }
        LocationInfo {
            matched: valid,
            valid,
            has_weather,
            has_poi,
            has_wiki_entries,
            has_nearest_address,
            has_pcs,
            num,
            zone,
            places,
            states,
            surrounding,
            cached: false,
            weather,
            poi,
            wikipedia,
        }
    }

    /// Marks the answer as served from cache; nothing else changes.
    pub fn set_cached(&mut self)
        ensures
            *final(self) == (LocationInfo { cached: true, ..*old(self) }),
    {
        self.cached = true;
    }
}


/// A place with the time zone in force there.
#[derive(Clone, Debug)]
pub struct GeoTimeInfo {
    pub place: Option<GeoNearby>,
    pub time: Option<TzRow>,
    pub cached: bool,
    pub valid: bool,
}

impl GeoTimeInfo {
    pub fn new(place: GeoNearby, time: TzRow) -> (r: GeoTimeInfo)
        ensures
            r == (GeoTimeInfo { place: Some(place), time: Some(time), cached: false, valid: true }),
    {
        GeoTimeInfo { place: Some(place), time: Some(time), cached: false, valid: true }
    }

    /// A place whose time zone is not known.
    pub fn new_geoplace(place: GeoNearby) -> (r: GeoTimeInfo)
        ensures
            r == (GeoTimeInfo { place: Some(place), time: None, cached: false, valid: true }),
    {
        GeoTimeInfo { place: Some(place), time: None, cached: false, valid: true }
    }

    pub fn set_cached(&mut self)
        ensures
            *final(self) == (GeoTimeInfo { cached: true, ..*old(self) }),
    {
        self.cached = true;
    }

    pub fn set_time(&mut self, time: TzRow)
        ensures
            *final(self) == (GeoTimeInfo { time: Some(time), ..*old(self) }),
    {
        self.time = Some(time);
    }
}

}
