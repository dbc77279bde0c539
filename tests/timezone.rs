use geocache::timezone::{
    natural_tz_offset_from_utc, weekday_number, SimpleISO8601, TzPeriod, TzRow, ISO_MAX, ISO_MIN,
};

const T0: i64 = 1_711_846_800; // 2024-03-31T01:00:00Z

fn snapshot(period: Option<TzPeriod>) -> TzRow {
    TzRow {
        abbreviation: String::from("GMT"),
        country_code: String::from("GB"),
        dst: false,
        gmt_offset: 0,
        local_dt: String::from("2024-03-31T00:50:00"),
        period,
        ref_unix: T0 - 600,
        solar_utc_offset: 0,
        utc: String::from("2024-03-31T00:50:00"),
        week_day: 7,
        zone_name: String::from("Europe/London"),
    }
}

fn spring_forward() -> Option<TzPeriod> {
    TzPeriod::new(Some(T0), Some(1_729_990_800), Some(3_600))
}

#[test]
fn simple_iso_has_no_zone_designator() {
    assert_eq!(0i64.to_simple_iso().unwrap(), "1970-01-01T00:00:00");
    assert_eq!(1_700_000_000i64.to_simple_iso().unwrap(), "2023-11-14T22:13:20");
    assert_eq!((-1i64).to_simple_iso().unwrap(), "1969-12-31T23:59:59");
    assert!(9_000_000_000_000i64.to_simple_iso().is_none());
    assert!(ISO_MAX.to_simple_iso().is_some());
    assert!((ISO_MAX + 1).to_simple_iso().is_none());
    assert!(ISO_MIN.to_simple_iso().is_some());
    assert!((ISO_MIN - 1).to_simple_iso().is_none());
    assert!(8_100_000_000_000i64.to_simple_iso().is_some());
    assert_eq!(weekday_number(ISO_MAX), weekday_number(ISO_MAX - 7 * 86_400));
}

#[test]
fn weekday_counts_from_monday() {
    assert_eq!(weekday_number(0), 4);
    assert_eq!(weekday_number(1_700_000_000), 2);
    assert_eq!(weekday_number(-1), 3);
    assert_eq!(weekday_number(T0), 7);
}

#[test]
fn solar_offset_reference_points() {
    assert_eq!(natural_tz_offset_from_utc(0), 0);
    assert_eq!(natural_tz_offset_from_utc(1_800_000_000), -43_200);
    assert_eq!(natural_tz_offset_from_utc(-1_800_000_000), -43_200);
    assert_eq!(natural_tz_offset_from_utc(1_799_999_999), 43_199);
    assert_eq!(natural_tz_offset_from_utc(-1_799_999_999), -43_199);
    assert_eq!(natural_tz_offset_from_utc(900_000_000), 21_600);
    assert_eq!(natural_tz_offset_from_utc(-1_200_000), -28);
}

#[test]
fn solar_offset_is_set_on_the_record() {
    let mut row = snapshot(None);
    row.calc_solar_offset(-1_200_000);
    assert_eq!(row.solar_utc_offset, -28);
    assert_eq!(row.gmt_offset, 0);
}

#[test]
fn period_without_start_or_end_is_dropped() {
    assert!(TzPeriod::new(None, None, Some(3_600)).is_none());
    assert!(TzPeriod::new(None, Some(5), None).is_some());
}

#[test]
fn reconcile_after_transition_takes_next_offset() {
    let mut row = snapshot(spring_forward());
    row.update_time_at(T0 + 1);
    assert_eq!(row.gmt_offset, 3_600);
    assert_eq!(row.local_dt, "2024-03-31T02:00:01");
    assert_eq!(row.utc, "2024-03-31T01:00:01");
    assert_eq!(row.ref_unix, T0 + 1);
    assert_eq!(row.week_day, 7);
    assert_eq!(row.abbreviation, "GMT");
    assert!(!row.dst);
}

#[test]
fn reconcile_before_transition_keeps_offset() {
    let mut row = snapshot(spring_forward());
    row.update_time_at(T0 - 1);
    assert_eq!(row.gmt_offset, 0);
    assert_eq!(row.local_dt, "2024-03-31T00:59:59");
    assert_eq!(row.ref_unix, T0 - 1);
}

#[test]
fn reconcile_without_period_keeps_offset() {
    let mut row = snapshot(None);
    row.gmt_offset = 3_600;
    row.update_time_at(T0);
    assert_eq!(row.gmt_offset, 3_600);
    assert_eq!(row.local_dt, "2024-03-31T02:00:00");
}

#[test]
fn reconcile_without_next_offset_keeps_offset() {
    let mut row = snapshot(TzPeriod::new(Some(T0), None, None));
    row.gmt_offset = -18_000;
    row.update_time_at(T0 + 10);
    assert_eq!(row.gmt_offset, -18_000);
    assert_eq!(row.local_dt, "2024-03-30T20:00:10");
    assert_eq!(row.week_day, 6);
}

#[test]
fn reconcile_twice_is_idempotent() {
    let mut once = snapshot(spring_forward());
    once.update_time_at(T0 + 7_200);
    let mut twice = once.clone();
    twice.update_time_at(T0 + 7_200);
    assert_eq!(once.gmt_offset, twice.gmt_offset);
    assert_eq!(once.local_dt, twice.local_dt);
    assert_eq!(once.utc, twice.utc);
    assert_eq!(once.week_day, twice.week_day);
    assert_eq!(once.ref_unix, twice.ref_unix);
}

#[test]
fn reconcile_to_now_moves_reference() {
    let mut row = snapshot(spring_forward());
    row.update_time(None);
    assert!(row.ref_unix > T0);
    assert_eq!(row.gmt_offset, 3_600);
    let mut given = snapshot(spring_forward());
    given.update_time(Some(T0 + 1));
    assert_eq!(given.local_dt, "2024-03-31T02:00:01");
}

#[test]
fn next_period_accessors() {
    let row = snapshot(spring_forward());
    assert_eq!(row.get_next_period_ts(), Some(T0));
    assert_eq!(row.get_next_period_offset(), 3_600);
    let bare = snapshot(None);
    assert_eq!(bare.get_next_period_ts(), None);
    assert_eq!(bare.get_next_period_offset(), 0);
}
