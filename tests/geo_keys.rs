use geocache::geo::{build_store_key_from_geo, Geo, DEFAULT_ALT};
use geocache::store::{astro_cache_key, domain_key, tz_cache_key, Domain};

fn london() -> Geo {
    Geo::simple(515_000_000, -1_200_000).unwrap()
}

#[test]
fn approx_key_pads_to_the_precision() {
    assert_eq!(london().to_approx_key(3), "51.500_-0.120");
    assert_eq!(london().to_approx_key(1), "51.5_-0.1");
    assert_eq!(london().to_approx_key(0), "52_0");
    assert_eq!(london().to_approx_key(7), "51.5000000_-0.1200000");
}

#[test]
fn approx_key_rounds_halves_away_from_zero() {
    let g = Geo::simple(512_345_000, -512_345_000).unwrap();
    assert_eq!(g.to_approx_key(3), "51.235_-51.235");
    let h = Geo::simple(512_344_999, 5_000).unwrap();
    assert_eq!(h.to_approx_key(3), "51.234_0.001");
}

#[test]
fn approx_key_has_no_negative_zero() {
    let g = Geo::simple(-4_000, -4_999).unwrap();
    assert_eq!(g.to_approx_key(3), "0.000_0.000");
}

#[test]
fn nearby_coordinates_share_a_key() {
    let a = Geo::simple(515_001_000, -1_199_000).unwrap();
    let b = Geo::simple(514_996_000, -1_204_000).unwrap();
    assert_eq!(
        build_store_key_from_geo("wiki", a, None, None, 3),
        build_store_key_from_geo("wiki", b, None, None, 3)
    );
    let c = Geo::simple(515_006_000, -1_200_000).unwrap();
    assert_ne!(
        build_store_key_from_geo("wiki", a, None, None, 3),
        build_store_key_from_geo("wiki", c, None, None, 3)
    );
}

#[test]
fn store_key_appends_radius_then_limit() {
    let g = london();
    assert_eq!(
        build_store_key_from_geo("pzones", g, Some(15_000), Some(7), 6),
        "pzones_51.500000_-0.120000_15000_7"
    );
    assert_eq!(build_store_key_from_geo("pc", g, None, Some(1), 6), "pc_51.500000_-0.120000_1");
    assert_eq!(build_store_key_from_geo("place", g, None, None, 5), "place_51.50000_-0.12000");
}

#[test]
fn domain_keys_use_domain_precision() {
    let g = london();
    assert_eq!(domain_key(Domain::Weather, g, None, None), "weather_51.5_-0.1");
    assert_eq!(domain_key(Domain::PointsOfInterest, g, None, None), "plofint_51.500_-0.120");
    assert_eq!(domain_key(Domain::Wikipedia, g, None, None), "wiki_51.500_-0.120");
    assert_eq!(domain_key(Domain::Place, g, None, None), "place_51.50000_-0.12000");
}

#[test]
fn timezone_key_folds_in_zone_and_date() {
    let g = london();
    assert_eq!(tz_cache_key("Europe/London", g, None), "tz_info_Europe/London_51.500_-0.120_a");
    assert_eq!(tz_cache_key("", g, Some("2024-03-31")), "tz_info__51.500_-0.120_2024-03-31");
}

#[test]
fn astro_key_buckets_by_half_hour() {
    let g = london();
    assert_eq!(astro_cache_key(g, Some(1_700_000_000)), "astro_data_51.50_-0.12_944444");
    assert_eq!(astro_cache_key(g, Some(1_700_001_799)), "astro_data_51.50_-0.12_944445");
    assert_eq!(astro_cache_key(g, Some(-1_801)), "astro_data_51.50_-0.12_-1");
    assert_eq!(astro_cache_key(g, None), "astro_data_51.50_-0.12_c");
}

#[test]
fn out_of_range_coordinates_are_rejected() {
    assert!(Geo::new(900_000_001, 0, 0).is_none());
    assert!(Geo::new(0, -1_800_000_001, 0).is_none());
    assert!(Geo::new(-900_000_000, 1_800_000_000, 0).is_some());
}

#[test]
fn coordinate_from_query_numbers() {
    let g = Geo::from_numbers(&vec![515_000_000, -1_200_000]).unwrap();
    assert_eq!(g.alt, DEFAULT_ALT);
    let h = Geo::from_numbers(&vec![515_000_000, -1_200_000, 1_500_000_000]).unwrap();
    assert_eq!(h.alt, 1_500_000_000);
    assert!(Geo::from_numbers(&vec![515_000_000]).is_none());
    assert!(Geo::from_numbers(&vec![915_000_000, 0]).is_none());
}

#[test]
fn provider_text_shows_altitude_only_when_read() {
    assert_eq!(london().to_string(), "51.5,-0.12");
    let g = Geo::new(515_000_000, -1_200_000, 1_505_000_000).unwrap();
    assert_eq!(g.to_string(), "51.5,-0.12,150.5");
    let h = Geo::new(515_000_000, -1_200_000, 50_000_000).unwrap();
    assert_eq!(h.to_string(), "51.5,-0.12");
    let k = Geo::new(1, 0, -20_000_000).unwrap();
    assert_eq!(k.to_string(), "0.0000001,0,-2");
}
