//! Time-zone snapshots and their reconciliation to a later instant.
//!
//! A cached snapshot records the offset in force when it was fetched and,
//! optionally, the next transition. Reconciling ages it to a target
//! instant without a new upstream call: the offset switches once the
//! transition has started, and the local time, weekday and reference
//! instant are recomputed.

use vstd::prelude::*;
use vstd::string::StrSliceExecFns;
use vstd::arithmetic::div_mod::{
    lemma_div_multiples_vanish_fancy, lemma_fundamental_div_mod, lemma_mod_multiples_vanish,
};
use crate::geo::MAX_LNG;
use crate::text::push_char;

verus! {

/// Seconds in a day.
pub const DAY_SECS: i64 = 86_400;

/// The earliest instant that chrono gives a date for.
pub const ISO_MIN: i64 = -8_334_601_228_800;

/// The latest instant that chrono gives a date for (+262142-12-31T23:59:59).
pub const ISO_MAX: i64 = 8_210_266_876_799;

/// RFC 3339 text of a Unix instant in UTC at whole seconds, with the `Z`
/// designator, as chrono writes it.
pub uninterp spec fn rfc3339_secs(ts: int) -> Seq<char>;

/// Relies on chrono's `DateTime::<Utc>::from_timestamp` and
/// `to_rfc3339_opts(SecondsFormat::Secs, true)`: `from_timestamp` gives a
/// date exactly for the instants from `ISO_MIN` to `ISO_MAX` (the day
/// numbers that `NaiveDate::from_num_days_from_ce_opt` maps into the years
/// `MIN_YEAR..=MAX_YEAR`), and the text depends on the instant alone.
#[verifier::external_body]
fn rfc3339_utc(ts: i64) -> (r: Option<String>)
    ensures
        r matches Some(s) ==> s@ == rfc3339_secs(ts as int),
        r is Some <==> ISO_MIN <= ts <= ISO_MAX,
{
    match chrono::DateTime::from_timestamp(ts, 0) {
        Some(d) => Some(d.to_rfc3339_opts(chrono::SecondsFormat::Secs, true)),
        None => None,
    }
}

/// Relies on chrono's `Utc::now`: the current Unix time in seconds. Nothing
/// is known of the value.
#[verifier::external_body]
fn unix_now() -> (r: i64) {
    chrono::Utc::now().timestamp()
}

/// The text with every `Z` removed.
pub open spec fn without_zone_designator(s: Seq<char>) -> Seq<char>
    decreases s.len(),
{
    if s.len() == 0 {
        Seq::empty()
    } else {
        let rest = without_zone_designator(s.drop_last());
        if s.last() == 'Z' {
            rest
        } else {
            rest.push(s.last())
        }
    }
}

/// ISO-8601 text of an instant at seconds precision with no zone
/// designator; `None` for an instant outside chrono's calendar.
pub open spec fn simple_iso_text(ts: int) -> Option<Seq<char>> {
    if ISO_MIN <= ts <= ISO_MAX {
        Some(without_zone_designator(rfc3339_secs(ts)))
    } else {
        None
    }
}

/// ISO weekday number of the day that holds the instant: Monday is 1,
/// Sunday is 7 (1970-01-01 was a Thursday).
pub open spec fn iso_weekday(ts: int) -> int {
    (ts / (DAY_SECS as int) + 3) % 7 + 1
}

/// Removes every `Z` from a text.
pub fn strip_zone_designator(s: &str) -> (r: String)
    ensures
        r@ == without_zone_designator(s@),
{
    let n = s.unicode_len();
    let mut out = String::new();
    let mut i: usize = 0;
    while i < n
        invariant
            n == s@.len(),
            i <= n,
            out@ == without_zone_designator(s@.subrange(0, i as int)),
        decreases n - i,
    {
        let c = s.get_char(i);
        proof {
            let pre = s@.subrange(0, i as int + 1);
            assert(pre.drop_last() =~= s@.subrange(0, i as int));
            assert(pre.last() == c);
        }
        if c != 'Z' {
            push_char(&mut out, c);
        }
        i = i + 1;
    }
    assert(s@.subrange(0, n as int) =~= s@);
    out
}

/// Text of a Unix instant with seconds precision and no zone designator,
/// such as `2024-03-31T01:00:01`.
pub trait SimpleISO8601 {
    /// What [`SimpleISO8601::to_simple_iso`] returns.
    spec fn simple_iso_spec(&self) -> Option<Seq<char>>;

    fn to_simple_iso(&self) -> (r: Option<String>)
        ensures
            match r {
                Some(s) => self.simple_iso_spec() == Some(s@),
                None => self.simple_iso_spec() is None,
            },
    ;
}

impl SimpleISO8601 for i64 {
    open spec fn simple_iso_spec(&self) -> Option<Seq<char>> {
        simple_iso_text(*self as int)
    }

    fn to_simple_iso(&self) -> (r: Option<String>) {
        match rfc3339_utc(*self) {
            Some(t) => Some(strip_zone_designator(t.as_str())),
            None => None,
        }
    }
}

/// ISO weekday number (Monday = 1) of an instant.
pub fn weekday_number(ts: i64) -> (r: u8)
    requires
        ISO_MIN <= ts <= ISO_MAX,
    ensures
        r as int == iso_weekday(ts as int),
        1 <= r <= 7,
{
    // Shifting by a whole number of weeks keeps the weekday and makes the
    // instant non-negative.
    let weeks: i64 = 20_000_000;
    let shifted: u64 = (ts + weeks * 7 * DAY_SECS) as u64;
    let days: u64 = shifted / 86_400;
    let r = ((days + 3) % 7 + 1) as u8;
    proof {
        let t = ts as int;
        let d = DAY_SECS as int;
        lemma_fundamental_div_mod(t, d);
        let q = t / d;
        let m = t % d;
        assert(shifted as int == d * (q + weeks * 7) + m);
        lemma_div_multiples_vanish_fancy(q + weeks * 7, m, d);
        assert(days as int == q + weeks * 7);
        lemma_mod_multiples_vanish(weeks as int, q + 3, 7);
        assert(7 * (weeks as int) + (q + 3) == days as int + 3);
    }
    r
}

/// Longitude-only approximation of the UTC offset in seconds: four
/// minutes per degree east of Greenwich, wrapped to `[-180, 180)` degrees
/// and truncated toward zero.
pub open spec fn solar_offset(lng: int) -> int {
    let m = (lng + 5_400_000_000) % 3_600_000_000 - 1_800_000_000;
    if m >= 0 {
        m * 240 / 10_000_000
    } else {
        -((-m) * 240 / 10_000_000)
    }
}

/// The solar UTC offset in seconds of a fixed-point longitude.
pub fn natural_tz_offset_from_utc(lng: i64) -> (r: i64)
    requires
        -MAX_LNG <= lng <= MAX_LNG,
    ensures
        r as int == solar_offset(lng as int),
        -43_200 <= r <= 43_200,
{
    let wrapped: u64 = ((lng + 5_400_000_000) as u64) % 3_600_000_000;
    if wrapped >= 1_800_000_000 {
        let m: u64 = wrapped - 1_800_000_000;
        (m * 240 / 10_000_000) as i64
    } else {
        let m: u64 = 1_800_000_000 - wrapped;
        -((m * 240 / 10_000_000) as i64)
    }
}

/// At 0° the solar offset is zero; at +180° and −180° it is the same,
/// −720 minutes, which is +720 minutes modulo a day: just west of the
/// antimeridian the offset approaches +720 minutes, and it wraps there.
pub proof fn lemma_solar_offset_reference_points()
    ensures
        solar_offset(0) == 0,
        solar_offset(MAX_LNG as int - 1) == 43_199,
        solar_offset(-MAX_LNG as int + 1) == -43_199,
        solar_offset(MAX_LNG as int) == solar_offset(-MAX_LNG as int),
        solar_offset(MAX_LNG as int) == -43_200,
        solar_offset(MAX_LNG as int) + 86_400 == 43_200,
{
}


/// The next transition of a zone: when it starts and ends, and the offset
/// in force from its start.
#[derive(Clone, Copy, Debug, PartialEq, Eq)]
pub struct TzPeriod {
    pub start: Option<i64>,
    pub end: Option<i64>,
    pub next_gmt_offset: Option<i64>,
}

impl TzPeriod {
    /// A period is worth keeping only when it has a start or an end.
    pub fn new(start: Option<i64>, end: Option<i64>, next_gmt_offset: Option<i64>) -> (r: Option<
        TzPeriod,
    >)
        ensures
            r is Some <==> (start is Some || end is Some),
            r matches Some(p) ==> p.start == start && p.end == end && p.next_gmt_offset
                == next_gmt_offset,
    {
        if start.is_some() || end.is_some() {
            Some(TzPeriod { start, end, next_gmt_offset })
        } else {
            None
        }
    }
}

/// A cached time-zone record.
#[derive(Clone, Debug)]
pub struct TzRow {
    pub abbreviation: String,
    pub country_code: String,
    pub dst: bool,
    pub gmt_offset: i64,
    pub local_dt: String,
    pub period: Option<TzPeriod>,
    pub ref_unix: i64,
    pub solar_utc_offset: i64,
    pub utc: String,
    pub week_day: u8,
    pub zone_name: String,
}

/// What a [`TzRow`] holds, with texts as character sequences.
pub struct TzSnapshot {
    pub abbreviation: Seq<char>,
    pub country_code: Seq<char>,
    pub dst: bool,
    pub gmt_offset: i64,
    pub local_dt: Seq<char>,
    pub period: Option<TzPeriod>,
    pub ref_unix: i64,
    pub solar_utc_offset: i64,
    pub utc: Seq<char>,
    pub week_day: u8,
    pub zone_name: Seq<char>,
}

impl View for TzRow {
    type V = TzSnapshot;

    open spec fn view(&self) -> TzSnapshot {
        TzSnapshot {
            abbreviation: self.abbreviation@,
            country_code: self.country_code@,
            dst: self.dst,
            gmt_offset: self.gmt_offset,
            local_dt: self.local_dt@,
            period: self.period,
            ref_unix: self.ref_unix,
            solar_utc_offset: self.solar_utc_offset,
            utc: self.utc@,
            week_day: self.week_day,
            zone_name: self.zone_name@,
        }
    }
}

/// The instant of the next transition, when the record has one.
pub open spec fn transition_start(period: Option<TzPeriod>) -> Option<i64> {
    match period {
        Some(p) => p.start,
        None => None,
    }
}

/// The transition has started by instant `t`.
pub open spec fn transition_due(period: Option<TzPeriod>, t: int) -> bool {
    match transition_start(period) {
        Some(start) => t >= start,
        None => false,
    }
}

/// The offset after the transition: the period's next offset, or the
/// current one when the period gives none.
pub open spec fn next_offset(period: Option<TzPeriod>, current: i64) -> i64 {
    match period {
        Some(p) => match p.next_gmt_offset {
            Some(o) => o,
            None => current,
        },
        None => current,
    }
}

/// The offset in force at instant `t`.
pub open spec fn offset_at(s: TzSnapshot, t: int) -> i64 {
    if transition_due(s.period, t) {
        next_offset(s.period, s.gmt_offset)
    } else {
        s.gmt_offset
    }
}

/// The snapshot aged to instant `t`. Abbreviation, DST flag and period are
/// kept as cached; a text that cannot be given for an instant is kept too.
pub open spec fn reconcile(s: TzSnapshot, t: i64) -> TzSnapshot {
    let offset = offset_at(s, t as int);
    let local = t as int + offset as int;
    TzSnapshot {
        gmt_offset: offset,
        ref_unix: t,
        utc: match simple_iso_text(t as int) {
            Some(u) => u,
            None => s.utc,
        },
        local_dt: match simple_iso_text(local) {
            Some(l) => l,
            None => s.local_dt,
        },
        week_day: if simple_iso_text(local) is Some {
            iso_weekday(local) as u8
        } else {
            s.week_day
        },
        ..s
    }
}

impl TzRow {
    /// The instant of the next transition, when the record has one.
    pub fn get_next_period_ts(&self) -> (r: Option<i64>)
        ensures
            r == transition_start(self.period),
    {
        match self.period {
            Some(p) => p.start,
            None => None,
        }
    }

    /// The offset in force once the next transition has started.
    pub fn get_next_period_offset(&self) -> (r: i64)
        ensures
            r == next_offset(self.period, self.gmt_offset),
    {
        match self.period {
            Some(p) => match p.next_gmt_offset {
                Some(o) => o,
                None => self.gmt_offset,
            },
            None => self.gmt_offset,
        }
    }

    /// Sets the solar offset from a longitude; nothing else changes.
    pub fn calc_solar_offset(&mut self, lng: i64)
        requires
            -MAX_LNG <= lng <= MAX_LNG,
        ensures
            final(self)@ == (TzSnapshot {
                solar_utc_offset: solar_offset(lng as int) as i64,
                ..old(self)@
            }),
    {
        self.solar_utc_offset = natural_tz_offset_from_utc(lng);
    }

    /// Ages the record to instant `ts`.
    pub fn update_time_at(&mut self, ts: i64)
        ensures
            final(self)@ == reconcile(old(self)@, ts),
    {
        let ghost before = self@;
        self.ref_unix = ts;
        if let Some(u) = ts.to_simple_iso() {
            self.utc = u;
        }
        let due = match self.get_next_period_ts() {
            Some(start) => ts >= start,
            None => false,
        };
        if due {
            self.gmt_offset = self.get_next_period_offset();
        }
        let local: i128 = ts as i128 + self.gmt_offset as i128;
        if ISO_MIN as i128 <= local && local <= ISO_MAX as i128 {
            let lt = local as i64;
            if let Some(l) = lt.to_simple_iso() {
                self.local_dt = l;
                self.week_day = weekday_number(lt);
            }
        }
        assert(self@ == reconcile(before, ts));
    }

    /// Ages the record to instant `ts`, or to the current time when none
    /// is given.
    pub fn update_time(&mut self, ts_opt: Option<i64>)
        ensures
            ts_opt matches Some(t) ==> final(self)@ == reconcile(old(self)@, t),
            exists|t: i64| final(self)@ == reconcile(old(self)@, t),
    {
        let t = match ts_opt {
            Some(t) => t,
            None => unix_now(),
        };
        self.update_time_at(t);
    }
}

/// Reconciling twice to the same instant changes nothing the second time.
pub proof fn lemma_reconcile_idempotent(s: TzSnapshot, t: i64)
    ensures
        reconcile(reconcile(s, t), t) == reconcile(s, t),
{
}

/// Once the transition has started the offset is the period's next offset
/// (the old one when the period gives none); before it, or without a
/// transition, the offset is unchanged.
pub proof fn lemma_reconcile_offset(s: TzSnapshot, t: i64)
    ensures
        transition_start(s.period) matches Some(start) && t >= start ==> reconcile(s, t).gmt_offset
            == next_offset(s.period, s.gmt_offset),
        transition_start(s.period) matches Some(start) && t < start ==> reconcile(s, t).gmt_offset
            == s.gmt_offset,
        transition_start(s.period) is None ==> reconcile(s, t).gmt_offset == s.gmt_offset,
{
}


/// A snapshot cached at offset zero whose next transition starts at `t0`
/// with offset 3600, reconciled one second after `t0`, has offset 3600
/// and the local time of `t0 + 1 + 3600`, on that day's weekday.
pub proof fn lemma_transition_one_second_after(s: TzSnapshot, t0: i64)
    requires
        s.gmt_offset == 0,
        s.period matches Some(p) && p.start == Some(t0) && p.next_gmt_offset == Some(3600i64),
        ISO_MIN <= t0 as int + 3601 <= ISO_MAX,
        t0 < i64::MAX,
    ensures
        reconcile(s, (t0 + 1) as i64).gmt_offset == 3600,
        reconcile(s, (t0 + 1) as i64).ref_unix == t0 + 1,
        simple_iso_text(t0 as int + 3601) == Some(reconcile(s, (t0 + 1) as i64).local_dt),
        reconcile(s, (t0 + 1) as i64).week_day as int == iso_weekday(t0 as int + 3601),
{
}

}
