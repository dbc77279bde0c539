use geocache::models::{
    postal_zones_supported, GeoNearby, GeoTimeInfo, LocationInfo, PcRow, PcZone, SimplePlace,
};
use geocache::timezone::TzRow;
use geocache::places::{age_at, build_pois, PlaceOfInterest};

fn zone(pc: &str, addresses: Vec<String>) -> PcZone {
    PcZone {
        pc: pc.to_string(),
        addresses,
        lat: 0,
        lng: 0,
        alt: 0,
        n: 0,
        e: 0,
        c: String::new(),
        cy: String::new(),
        d: String::new(),
        wc: String::new(),
        cs: String::new(),
        lc: String::new(),
        w: String::new(),
        gr: String::new(),
        modified_at: String::new(),
        dist: 0,
        pn: None,
    }
}

fn place() -> GeoNearby {
    GeoNearby {
        lng: -1_200_000,
        lat: 515_000_000,
        name: String::from("Westminster"),
        toponym: String::from("Westminster"),
        fcode: String::from("PPLX"),
        distance: 0,
        pop: 200_000,
        admin_name: String::from("England"),
        region: String::from("Greater London"),
        cc: Some(String::from("GB")),
        country_name: String::from("United Kingdom"),
        zone_name: Some(String::from("Europe/London")),
        pc: None,
    }
}

#[test]
fn location_flags_follow_contents() {
    let p = place();
    let zones = vec![zone("SW1A 1AA", vec![String::from("1 Mall")]), zone("SW1A 2AA", vec![])];
    let info: LocationInfo<u8, u8, u8> =
        LocationInfo::new(zones, p.to_places(), p.to_states(), Some(1), vec![], vec![4, 5]);
    assert!(info.valid && info.matched);
    assert!(info.has_weather);
    assert!(!info.has_poi);
    assert!(info.has_wiki_entries);
    assert!(info.has_pcs);
    assert!(info.has_nearest_address);
    assert_eq!(info.num, 2);
    assert_eq!(info.zone.as_ref().unwrap().pc, "SW1A 1AA");
    assert_eq!(info.surrounding.len(), 1);
    assert_eq!(info.surrounding[0].pc, "SW1A 2AA");
    assert!(!info.cached);
    assert_eq!(info.states.len(), 3);
    assert_eq!(info.states[2].name, "United Kingdom");
}

#[test]
fn empty_location_is_not_valid() {
    let mut info: LocationInfo<u8, u8, u8> =
        LocationInfo::new(vec![], vec![], vec![], None, vec![], vec![]);
    assert!(!info.valid && !info.matched);
    assert!(!info.has_weather && !info.has_pcs && !info.has_nearest_address);
    assert!(info.zone.is_none() && info.surrounding.is_empty());
    assert_eq!(info.num, 0);
    info.set_cached();
    assert!(info.cached);
}

#[test]
fn postal_zone_regions() {
    let regions = vec![String::from("GB"), String::from("UK")];
    assert!(postal_zones_supported(&Some(String::from("GB")), &regions));
    assert!(postal_zones_supported(&Some(String::from("UK")), &regions));
    assert!(postal_zones_supported(&Some(String::from("GBR")), &regions));
    assert!(!postal_zones_supported(&Some(String::from("IE")), &regions));
    assert!(!postal_zones_supported(&Some(String::from("G")), &regions));
    assert!(!postal_zones_supported(&None, &regions));
    assert!(!postal_zones_supported(&Some(String::from("GB")), &vec![]));
    assert!(postal_zones_supported(&Some(String::from("FR")), &vec![String::from("FR")]));
}

#[test]
fn place_records() {
    let mut p = place();
    let row = PcRow {
        lat: 0,
        lng: 0,
        c: String::new(),
        cy: String::new(),
        d: String::new(),
        pc: String::from("SW1A 1AA"),
        lc: String::new(),
        w: String::new(),
        distance: 1_234,
    };
    p.add_pc(row.as_info());
    assert_eq!(p.pc.as_ref().unwrap().v, "SW1A 1AA");
    assert_eq!(p.pc.as_ref().unwrap().m, 1_234);
    let places = p.to_places();
    assert_eq!(places.len(), 1);
    assert_eq!(places[0].name, "Westminster");
    let s = SimplePlace::new(1, 2, "x");
    assert_eq!((s.lat, s.lng), (1, 2));
    let mut z = zone("SW1A 1AA", vec![]);
    z.add_pn("Westminster");
    assert_eq!(z.pn.as_deref(), Some("Westminster"));
    z.add_addresses(vec![String::from("a")]);
    assert!(z.has_addresses());
}

fn poi(name: &str, label: &str) -> PlaceOfInterest {
    PlaceOfInterest::new(1, 2, 3, name, String::from("amenity"), String::from(label))
}

#[test]
fn poi_name_is_trimmed_or_falls_back() {
    assert_eq!(poi("  Cafe Nero \n", "cafe").get_name(), "Cafe Nero");
    assert_eq!(poi("   ", "bench").get_name(), "bench");
    assert_eq!(poi("", "bench").name, "bench");
}

#[test]
fn pois_keep_first_of_each_name() {
    let rows = vec![poi("A", "x"), poi("B", "x"), poi(" A ", "y"), poi("", "B"), poi("C", "z")];
    let kept = build_pois(rows);
    let names: Vec<String> = kept.iter().map(|p| p.name.clone()).collect();
    assert_eq!(names, vec!["A", "B", "C"]);
    assert_eq!(kept[0].type_label, "x");
    assert!(build_pois(vec![]).is_empty());
}

#[test]
fn astro_age() {
    assert_eq!(age_at(1_000, 400), Some(600));
    assert_eq!(age_at(i64::MIN, 1), None);
}

#[test]
fn geo_time_info_builders() {
    let mut info = GeoTimeInfo::new_geoplace(place());
    assert!(info.valid && !info.cached && info.time.is_none());
    info.set_cached();
    assert!(info.cached);
    let row = TzRow {
        abbreviation: String::from("GMT"),
        country_code: String::from("GB"),
        dst: false,
        gmt_offset: 0,
        local_dt: String::new(),
        period: None,
        ref_unix: 0,
        solar_utc_offset: 0,
        utc: String::new(),
        week_day: 4,
        zone_name: String::from("Europe/London"),
    };
    info.set_time(row.clone());
    assert_eq!(info.time.as_ref().unwrap().zone_name, "Europe/London");
    let fresh = GeoTimeInfo::new(place(), row);
    assert!(fresh.time.is_some() && !fresh.cached);
}
