//! Coordinates held as fixed-point integers and the cache keys derived
//! from them.
//!
//! Latitude and longitude are counted in units of `10^-7` degree and
//! altitude in units of `10^-7` metre, so that rounding to a number of
//! decimal places is exact integer arithmetic.

use vstd::prelude::*;
use crate::text::{
    digits, fixed_text, pow10, pow10_exec, push_char, push_digits, push_fixed,
    push_trimmed, trimmed_text,
};

verus! {

/// Fixed-point units per degree (or per metre of altitude).
pub const COORD_SCALE: i64 = 10_000_000;

/// Decimal places that one fixed-point unit stands for.
pub const COORD_PLACES: u32 = 7;

/// Largest latitude magnitude, in fixed-point units.
pub const MAX_LAT: i64 = 900_000_000;

/// Largest longitude magnitude, in fixed-point units.
pub const MAX_LNG: i64 = 1_800_000_000;

/// Altitude that stands for "no reading" (ten metres).
pub const DEFAULT_ALT: i64 = 100_000_000;

/// A point on the globe. Built through [`Geo::new`] or [`Geo::simple`],
/// which reject out-of-range latitude and longitude.
#[derive(Clone, Copy, Debug, PartialEq, Eq)]
pub struct Geo {
    pub lat: i64,
    pub lng: i64,
    pub alt: i64,
}

/// Latitude and longitude lie on the globe.
pub open spec fn in_range(lat: int, lng: int) -> bool {
    -MAX_LAT <= lat <= MAX_LAT && -MAX_LNG <= lng <= MAX_LNG
}

/// `v / d` rounded to the nearest integer, halves away from zero.
pub open spec fn round_half_away(v: int, d: int) -> int
    recommends
        d > 0,
{
    if v >= 0 {
        (v + d / 2) / d
    } else {
        -((-v + d / 2) / d)
    }
}

/// A fixed-point value rounded to `places` decimal places, counted in
/// units of `10^-places`.
pub open spec fn rounded(v: int, places: nat) -> int {
    round_half_away(v, pow10((COORD_PLACES - places) as nat) as int)
}

/// The coordinate part of a cache key: both rounded values with exactly
/// `places` fractional digits, joined by `_`.
pub open spec fn approx_key(lat: int, lng: int, places: nat) -> Seq<char> {
    fixed_text(rounded(lat, places), places) + seq!['_'] + fixed_text(rounded(lng, places), places)
}

/// `_<n>` for a modifier that is present, nothing otherwise.
pub open spec fn modifier_suffix(m: Option<u32>) -> Seq<char> {
    match m {
        Some(v) => seq!['_'] + digits(v as nat),
        None => Seq::empty(),
    }
}

/// A domain cache key: prefix, rounded coordinate, then radius and limit.
pub open spec fn store_key(
    prefix: Seq<char>,
    lat: int,
    lng: int,
    places: nat,
    radius: Option<u32>,
    limit: Option<u32>,
) -> Seq<char> {
    prefix + seq!['_'] + approx_key(lat, lng, places) + modifier_suffix(radius) + modifier_suffix(
        limit,
    )
}

/// The altitude is a real reading: below zero or above ten metres.
pub open spec fn alt_is_reading(alt: int) -> bool {
    alt < 0 || alt > DEFAULT_ALT
}

/// `lat,lng` in shortest decimal form, then `,alt` when it is a reading.
pub open spec fn geo_text(g: Geo) -> Seq<char> {
    let base = trimmed_text(g.lat as int, COORD_PLACES as nat) + seq![','] + trimmed_text(
        g.lng as int,
        COORD_PLACES as nat,
    );
    if alt_is_reading(g.alt as int) {
        base + seq![','] + trimmed_text(g.alt as int, COORD_PLACES as nat)
    } else {
        base
    }
}

/// Rounds a fixed-point coordinate to `places` decimal places.
pub fn round_to_places(v: i64, places: u32) -> (r: i64)
    requires
        -MAX_LNG <= v <= MAX_LNG,
        places <= COORD_PLACES,
    ensures
        r as int == rounded(v as int, places as nat),
        -MAX_LNG <= r <= MAX_LNG,
{
    let d = pow10_exec(COORD_PLACES - places) as i64;
    if v >= 0 {
        let r = (v + d / 2) / d;
        assert(r <= v) by (nonlinear_arith)
            requires
                r as int == (v as int + d as int / 2) / d as int,
                d >= 1,
                v >= 0,
        ;
        r
    } else {
        let r = (-v + d / 2) / d;
        assert(r <= -v) by (nonlinear_arith)
            requires
                r as int == (-(v as int) + d as int / 2) / d as int,
                d >= 1,
                v < 0,
        ;
        -r
    }
}

impl Geo {
    /// Latitude and longitude lie on the globe.
    pub open spec fn wf(&self) -> bool {
        in_range(self.lat as int, self.lng as int)
    }

    /// A coordinate with an altitude; `None` when latitude or longitude
    /// is out of range.
    pub fn new(lat: i64, lng: i64, alt: i64) -> (r: Option<Geo>)
        ensures
            r is Some <==> in_range(lat as int, lng as int),
            r matches Some(g) ==> g.lat == lat && g.lng == lng && g.alt == alt,
    {
        if -MAX_LAT <= lat && lat <= MAX_LAT && -MAX_LNG <= lng && lng <= MAX_LNG {
            Some(Geo { lat, lng, alt })
        } else {
            None
        }
    }

    /// A coordinate without an altitude reading.
    pub fn simple(lat: i64, lng: i64) -> (r: Option<Geo>)
        ensures
            r is Some <==> in_range(lat as int, lng as int),
            r matches Some(g) ==> g.lat == lat && g.lng == lng && g.alt == DEFAULT_ALT,
    {
        Geo::new(lat, lng, DEFAULT_ALT)
    }

    /// A coordinate from parsed query numbers `lat,lng[,alt]`: `None` when
    /// fewer than two numbers are given or the point is off the globe.
    pub fn from_numbers(nums: &Vec<i64>) -> (r: Option<Geo>)
        ensures
            nums@.len() < 2 ==> r is None,
            nums@.len() >= 2 ==> (r is Some <==> in_range(nums@[0] as int, nums@[1] as int)),
            r matches Some(g) ==> g.lat == nums@[0] && g.lng == nums@[1] && g.alt == (if nums@.len()
                == 2 {
                DEFAULT_ALT
            } else {
                nums@[2]
            }),
    {
        if nums.len() < 2 {
            None
        } else if nums.len() == 2 {
            Geo::simple(nums[0], nums[1])
        } else {
            Geo::new(nums[0], nums[1], nums[2])
        }
    }

    /// Latitude and longitude rounded to `places` decimal places, joined
    /// by `_`. Coordinates that round alike share the key.
    pub fn to_approx_key(&self, places: u8) -> (r: String)
        requires
            self.wf(),
            places <= 7,
        ensures
            r@ == approx_key(self.lat as int, self.lng as int, places as nat),
    {
        let mut s = String::new();
        push_fixed(&mut s, round_to_places(self.lat, places as u32), places as u32);
        push_char(&mut s, '_');
        push_fixed(&mut s, round_to_places(self.lng, places as u32), places as u32);
        s
    }

    /// The coordinate as sent to providers: `lat,lng`, with `,alt`
    /// appended only for a real altitude reading.
    pub fn to_string(&self) -> (r: String)
        ensures
            r@ == geo_text(*self),
    {
        let mut s = String::new();
        push_trimmed(&mut s, self.lat, COORD_PLACES);
        push_char(&mut s, ',');
        push_trimmed(&mut s, self.lng, COORD_PLACES);
        if self.alt < 0 || self.alt > DEFAULT_ALT {
            push_char(&mut s, ',');
            push_trimmed(&mut s, self.alt, COORD_PLACES);
        }
        s
    }
}

/// Appends `_<n>` when the modifier is present.
fn push_modifier(s: &mut String, m: Option<u32>)
    ensures
        final(s)@ == old(s)@ + modifier_suffix(m),
{
    if let Some(v) = m {
        push_char(s, '_');
        push_digits(s, v as u64);
    }
    assert(s@ =~= old(s)@ + modifier_suffix(m));
}

/// The cache key of a domain: `prefix_lat_lng`, rounded to `places`
/// decimal places, then `_radius` and `_limit` when given.
pub fn build_store_key_from_geo(
    prefix: &str,
    geo: Geo,
    radius: Option<u32>,
    limit: Option<u32>,
    places: u8,
) -> (r: String)
    requires
        geo.wf(),
        places <= 7,
    ensures
        r@ == store_key(prefix@, geo.lat as int, geo.lng as int, places as nat, radius, limit),
{
    let mut s = String::from_str(prefix);
    push_char(&mut s, '_');
    let coords = geo.to_approx_key(places);
    s.append(coords.as_str());
    push_modifier(&mut s, radius);
    push_modifier(&mut s, limit);
    assert(s@ =~= store_key(prefix@, geo.lat as int, geo.lng as int, places as nat, radius, limit));
    s
}

/// Coordinates that round to the same values at a precision get the same
/// key for every prefix and modifier.
pub proof fn lemma_same_rounding_same_key(
    prefix: Seq<char>,
    a: Geo,
    b: Geo,
    places: nat,
    radius: Option<u32>,
    limit: Option<u32>,
)
    requires
        rounded(a.lat as int, places) == rounded(b.lat as int, places),
        rounded(a.lng as int, places) == rounded(b.lng as int, places),
    ensures
        store_key(prefix, a.lat as int, a.lng as int, places, radius, limit) == store_key(
            prefix,
            b.lat as int,
            b.lng as int,
            places,
            radius,
            limit,
        ),
{
}

}
