use std::collections::HashMap;

use geocache::aggregate::{AggregateAction, AggregateEvent, Aggregation};
use geocache::geonames::GeoNamesService;
use geocache::models::{GeoNearby, LocationInfo, PcZone};

fn place(cc: &str) -> GeoNearby {
    GeoNearby {
        lng: -1_200_000,
        lat: 515_000_000,
        name: String::from("Westminster"),
        toponym: String::from("Westminster"),
        fcode: String::from("PPLX"),
        distance: 0,
        pop: 1,
        admin_name: String::from("England"),
        region: String::from("London"),
        cc: Some(cc.to_string()),
        country_name: String::from("United Kingdom"),
        zone_name: None,
        pc: None,
    }
}

fn zone(pc: &str, addresses: Vec<String>) -> PcZone {
    PcZone {
        pc: pc.to_string(),
        addresses,
        lat: 0,
        lng: 0,
        alt: 0,
        n: 0,
        e: 0,
        c: String::new(),
        cy: String::new(),
        d: String::new(),
        wc: String::new(),
        cs: String::new(),
        lc: String::new(),
        w: String::new(),
        gr: String::new(),
        modified_at: String::new(),
        dist: 0,
        pn: None,
    }
}

struct World {
    registry: HashMap<String, String>,
    address_calls: Vec<String>,
    addresses: Option<Vec<String>>,
    zone_fetches: usize,
}

/// Drives one composite lookup with fixed provider answers.
fn run(world: &mut World, the_place: Option<GeoNearby>, place_cached: bool) -> (LocationInfo<u8, u8, u8>, bool) {
    let regions = vec![String::from("GB"), String::from("UK")];
    let mut agg: Aggregation<u8, u8, u8> = Aggregation::new(regions);
    loop {
        match agg.next_action() {
            AggregateAction::ResolvePlace => agg.step(AggregateEvent::PlaceResolved(the_place.clone(), place_cached)),
            AggregateAction::ResolveZones => {
                world.zone_fetches += 1;
                let zones = vec![zone("E1 6AN", vec![]), zone("E1 6AB", vec![])];
                agg.step(AggregateEvent::ZonesResolved(zones, false));
            },
            AggregateAction::ReadMarker(key) => {
                agg.step(AggregateEvent::MarkerRead(world.registry.get(&key).cloned()))
            },
            AggregateAction::LookupAddresses(pc) => {
                world.address_calls.push(pc);
                agg.step(AggregateEvent::AddressesFound(world.addresses.clone()));
            },
            AggregateAction::WriteMarker(w) => {
                world.registry.insert(w.key.clone(), w.value.clone());
                agg.step(AggregateEvent::MarkerWritten);
            },
            AggregateAction::ResolveWeather => agg.step(AggregateEvent::WeatherResolved(Some(7))),
            AggregateAction::ResolvePoi => agg.step(AggregateEvent::PoiResolved(None)),
            AggregateAction::ResolveWiki => agg.step(AggregateEvent::WikiResolved(Some(vec![1, 2]))),
            AggregateAction::Finish => break,
        }
    }
    let dirty = agg.zones_dirty;
    (agg.finish(), dirty)
}

#[test]
fn empty_address_answer_is_not_retried() {
    let mut world = World { registry: HashMap::new(), address_calls: vec![], addresses: Some(vec![]), zone_fetches: 0 };
    let (first, _) = run(&mut world, Some(place("GB")), false);
    assert_eq!(world.address_calls, vec![String::from("E1 6AN")]);
    assert_eq!(world.registry.get("address_check_E1_6AN"), Some(&String::from("1")));
    assert!(!first.has_nearest_address);
    let (second, _) = run(&mut world, Some(place("GB")), false);
    assert_eq!(world.address_calls.len(), 1);
    assert!(!second.has_nearest_address);
    assert_eq!(second.num, 2);
}

#[test]
fn found_addresses_reach_the_nearest_zone_only() {
    let found = vec![String::from("1 Whitechapel Road, E1 6AN")];
    let mut world =
        World { registry: HashMap::new(), address_calls: vec![], addresses: Some(found.clone()), zone_fetches: 0 };
    let (info, dirty) = run(&mut world, Some(place("GB")), true);
    assert!(dirty);
    assert!(world.registry.is_empty());
    let nearest = info.zone.unwrap();
    assert_eq!(nearest.addresses, found);
    assert_eq!(nearest.pn.as_deref(), Some("Westminster"));
    assert!(info.surrounding[0].addresses.is_empty());
    assert!(info.has_nearest_address);
    assert!(info.cached);
    assert_eq!(info.weather, Some(7));
    assert!(!info.has_poi);
    assert_eq!(info.wikipedia, vec![1, 2]);
}

#[test]
fn zones_only_where_the_country_keeps_them() {
    let mut world = World { registry: HashMap::new(), address_calls: vec![], addresses: None, zone_fetches: 0 };
    let (info, dirty) = run(&mut world, Some(place("FR")), false);
    assert_eq!(world.zone_fetches, 0);
    assert!(!dirty);
    assert!(!info.has_pcs);
    assert!(info.valid);
    assert!(!info.cached);
    let (none, _) = run(&mut world, None, false);
    assert!(!none.valid);
    assert_eq!(world.zone_fetches, 0);
}

#[test]
fn failed_address_lookup_marks_the_code() {
    let mut world = World { registry: HashMap::new(), address_calls: vec![], addresses: None, zone_fetches: 0 };
    run(&mut world, Some(place("UK")), false);
    assert!(world.registry.contains_key("address_check_E1_6AN"));
    assert_eq!(world.address_calls.len(), 1);
}

#[test]
fn geonames_method_names() {
    assert_eq!(GeoNamesService::Weather.to_method_name(), "findNearByWeatherJSON");
    assert_eq!(GeoNamesService::PlacesOfInterest.to_method_name(), "findNearbyPOIsOSMJSON");
    assert_eq!(GeoNamesService::Wikipedia.to_method_name(), "findNearbyWikipediaJSON");
    assert_eq!(GeoNamesService::Postcode.to_method_name(), "findNearbyPostalCodesJSON");
    assert_eq!(GeoNamesService::Extended.to_method_name(), "extendedFindNearbyJSON");
    assert_eq!(GeoNamesService::Address.to_method_name(), "addressJSON");
    assert!(GeoNamesService::PlacesOfInterest.needs_radius_and_style());
    assert!(!GeoNamesService::Weather.needs_radius_and_style());
}

#[test]
fn undecodable_marker_does_not_block_lookup() {
    let mut world = World { registry: HashMap::new(), address_calls: vec![], addresses: Some(vec![]), zone_fetches: 0 };
    world.registry.insert(String::from("address_check_E1_6AN"), String::from("x"));
    run(&mut world, Some(place("GB")), false);
    assert_eq!(world.address_calls.len(), 1);
    assert_eq!(world.registry.get("address_check_E1_6AN"), Some(&String::from("1")));
}

#[test]
fn zone_regions_are_a_capability_list() {
    let mut agg: Aggregation<u8, u8, u8> = Aggregation::new(vec![String::from("IE")]);
    agg.step(AggregateEvent::PlaceResolved(Some(place("IE")), false));
    assert!(matches!(agg.next_action(), AggregateAction::ResolveZones));
    let mut other: Aggregation<u8, u8, u8> = Aggregation::new(vec![String::from("IE")]);
    other.step(AggregateEvent::PlaceResolved(Some(place("GB")), false));
    assert!(matches!(other.next_action(), AggregateAction::ResolveWeather));
}

#[test]
fn out_of_phase_event_changes_nothing() {
    let mut agg: Aggregation<u8, u8, u8> = Aggregation::new(vec![String::from("GB")]);
    agg.step(AggregateEvent::WeatherResolved(Some(3)));
    assert!(matches!(agg.next_action(), AggregateAction::ResolvePlace));
    assert_eq!(agg.weather, None);
}
