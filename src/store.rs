//! Cache policy: which key and time-to-live each data domain uses, the
//! writes that the cache backend is asked to perform, and the negative
//! check registry that suppresses repeated address lookups.
//!
//! The backend itself (a string key to string value store with optional
//! per-key expiry) sits outside the library; [`StoreModel`] describes what
//! it does with a write, so that the registry's behaviour can be stated.

use vstd::prelude::*;
use vstd::string::StrSliceExecFns;
use crate::geo::{approx_key, build_store_key_from_geo, store_key, Geo};
use crate::text::{int_text, push_char, push_int};

verus! {

/// How long an address-lookup marker stays: 183 days.
pub const ADDRESS_CHECK_TTL: u64 = 15_811_200;

/// Width of the time bucket that astronomical keys share.
pub const ASTRO_BUCKET_SECS: i64 = 1_800;

/// The data domains that are cached separately.
#[derive(Clone, Copy, Debug, PartialEq, Eq)]
pub enum Domain {
    /// Nearest place and administrative hierarchy.
    Place,
    /// Nearest postal codes, as short rows.
    PostalCodes,
    /// Nearest postal zones with their addresses.
    PostalZones,
    /// Time zone of a coordinate.
    Timezone,
    /// Latest weather observation.
    Weather,
    /// Points of interest.
    PointsOfInterest,
    /// Wikipedia summaries.
    Wikipedia,
    /// Astronomical ephemeris window.
    Astro,
}

/// Seconds that a domain's entries live; zero means no expiry.
pub open spec fn domain_ttl(d: Domain) -> u64 {
    match d {
        Domain::Place => 0,
        Domain::PostalCodes => 0,
        Domain::PostalZones => 0,
        Domain::Timezone => 900,
        Domain::Weather => 1_800,
        Domain::PointsOfInterest => 2_678_400,
        Domain::Wikipedia => 8_035_200,
        Domain::Astro => 1_800,
    }
}

/// Decimal places to which a domain rounds coordinates.
pub open spec fn domain_places(d: Domain) -> u8 {
    match d {
        Domain::Place => 5,
        Domain::PostalCodes => 6,
        Domain::PostalZones => 6,
        Domain::Timezone => 3,
        Domain::Weather => 1,
        Domain::PointsOfInterest => 3,
        Domain::Wikipedia => 3,
        Domain::Astro => 2,
    }
}

/// The prefix of a domain's keys.
pub open spec fn domain_prefix(d: Domain) -> Seq<char> {
    match d {
        Domain::Place => "place"@,
        Domain::PostalCodes => "pc"@,
        Domain::PostalZones => "pzones"@,
        Domain::Timezone => "tz_info"@,
        Domain::Weather => "weather"@,
        Domain::PointsOfInterest => "plofint"@,
        Domain::Wikipedia => "wiki"@,
        Domain::Astro => "astro_data"@,
    }
}

impl Domain {
    /// Seconds that the domain's entries live; zero means no expiry.
    pub fn ttl_secs(&self) -> (r: u64)
        ensures
            r == domain_ttl(*self),
    {
        match self {
            Domain::Place => 0,
            Domain::PostalCodes => 0,
            Domain::PostalZones => 0,
            Domain::Timezone => 900,
            Domain::Weather => 1_800,
            Domain::PointsOfInterest => 2_678_400,
            Domain::Wikipedia => 8_035_200,
            Domain::Astro => 1_800,
        }
    }

    /// Decimal places to which the domain rounds coordinates.
    pub fn places(&self) -> (r: u8)
        ensures
            r == domain_places(*self),
            r <= 7,
    {
        match self {
            Domain::Place => 5,
            Domain::PostalCodes => 6,
            Domain::PostalZones => 6,
            Domain::Timezone => 3,
            Domain::Weather => 1,
            Domain::PointsOfInterest => 3,
            Domain::Wikipedia => 3,
            Domain::Astro => 2,
        }
    }

    /// The prefix of the domain's keys.
    pub fn prefix(&self) -> (r: &'static str)
        ensures
            r@ == domain_prefix(*self),
    {
        match self {
            Domain::Place => "place",
            Domain::PostalCodes => "pc",
            Domain::PostalZones => "pzones",
            Domain::Timezone => "tz_info",
            Domain::Weather => "weather",
            Domain::PointsOfInterest => "plofint",
            Domain::Wikipedia => "wiki",
            Domain::Astro => "astro_data",
        }
    }
}

/// The key of a coordinate in a domain, with the optional radius (in
/// metres) and result limit that the domain's query uses.
pub fn domain_key(domain: Domain, geo: Geo, radius: Option<u32>, limit: Option<u32>) -> (r: String)
    requires
        geo.wf(),
    ensures
        r@ == store_key(
            domain_prefix(domain),
            geo.lat as int,
            geo.lng as int,
            domain_places(domain) as nat,
            radius,
            limit,
        ),
{
    build_store_key_from_geo(domain.prefix(), geo, radius, limit, domain.places())
}

/// `tz_info_<zone>_<coordinate>_<date>`, with `a` when no date is given.
pub open spec fn tz_key(zone: Seq<char>, geo: Geo, date: Option<Seq<char>>) -> Seq<char> {
    "tz_info_"@ + zone + seq!['_'] + approx_key(geo.lat as int, geo.lng as int, 3) + seq!['_']
        + match date {
        Some(d) => d,
        None => seq!['a'],
    }
}

/// The time-zone key: it folds in the zone name and the requested date,
/// since the offset depends on the date.
pub fn tz_cache_key(zone: &str, geo: Geo, date: Option<&str>) -> (r: String)
    requires
        geo.wf(),
    ensures
        r@ == tz_key(zone@, geo, match date {
            Some(d) => Some(d@),
            None => None,
        }),
{
    let mut s = String::from_str("tz_info_");
    s.append(zone);
    push_char(&mut s, '_');
    let coords = geo.to_approx_key(3);
    s.append(coords.as_str());
    push_char(&mut s, '_');
    match date {
        Some(d) => s.append(d),
        None => push_char(&mut s, 'a'),
    }
    proof {
        reveal_strlit("tz_info_");
    }
    assert(s@ =~= tz_key(zone@, geo, match date {
        Some(d) => Some(d@),
        None => None,
    }));
    s
}

/// The half-hour bucket of an instant (division truncated toward zero).
pub open spec fn astro_bucket(ts: int) -> int {
    if ts >= 0 {
        ts / ASTRO_BUCKET_SECS as int
    } else {
        -((-ts) / ASTRO_BUCKET_SECS as int)
    }
}

/// `astro_data_<coordinate>_<bucket>`, with `c` for the current time.
pub open spec fn astro_key(geo: Geo, ts: Option<i64>) -> Seq<char> {
    "astro_data_"@ + approx_key(geo.lat as int, geo.lng as int, 2) + seq!['_'] + match ts {
        Some(t) => int_text(astro_bucket(t as int)),
        None => seq!['c'],
    }
}

/// The astronomical key: queries within the same half hour share it.
pub fn astro_cache_key(geo: Geo, ts: Option<i64>) -> (r: String)
    requires
        geo.wf(),
    ensures
        r@ == astro_key(geo, ts),
{
    let mut s = String::from_str("astro_data_");
    let coords = geo.to_approx_key(2);
    s.append(coords.as_str());
    push_char(&mut s, '_');
    match ts {
        Some(t) => {
            let bucket: i64 = if t >= 0 {
                t / ASTRO_BUCKET_SECS
            } else {
                -((-(t as i128)) / (ASTRO_BUCKET_SECS as i128)) as i64
            };
            push_int(&mut s, bucket);
        },
        None => push_char(&mut s, 'c'),
    }
    proof {
        reveal_strlit("astro_data_");
    }
    assert(s@ =~= astro_key(geo, ts));
    s
}

/// A write that the cache backend is asked to perform; an expiry of zero
/// means the entry does not expire.
#[derive(Clone, Debug)]
pub struct CacheWrite {
    pub key: String,
    pub value: String,
    pub expiry_secs: u64,
}

/// A stored value and the instant from which it is gone, if any.
pub struct StoredValue {
    pub value: Seq<char>,
    pub expires_at: Option<int>,
}

/// The backend's contents.
pub type StoreModel = Map<Seq<char>, StoredValue>;

/// The contents after a write at instant `now`: the key gets the value and
/// the expiry of the write, replacing what was there.
pub open spec fn store_after_write(
    m: StoreModel,
    key: Seq<char>,
    value: Seq<char>,
    expiry_secs: u64,
    now: int,
) -> StoreModel {
    m.insert(
        key,
        StoredValue {
            value,
            expires_at: if expiry_secs == 0 {
                None
            } else {
                Some(now + expiry_secs)
            },
        },
    )
}

/// What a read of `key` at instant `t` returns.
pub open spec fn store_lookup(m: StoreModel, key: Seq<char>, t: int) -> Option<Seq<char>> {
    if m.contains_key(key) && match m[key].expires_at {
        Some(e) => t < e,
        None => true,
    } {
        Some(m[key].value)
    } else {
        None
    }
}

/// Whitespace that an identity normalisation replaces.
pub open spec fn is_blank(c: char) -> bool {
    c == ' ' || c == '\t' || c == '\n' || c == '\r' || c == '\x0C'
}

/// The identity with each whitespace character replaced by `_`.
pub open spec fn normalized_identity(s: Seq<char>) -> Seq<char> {
    s.map_values(|c: char| if is_blank(c) { '_' } else { c })
}

/// `address_check_<identity>`.
pub open spec fn address_key(pc: Seq<char>) -> Seq<char> {
    "address_check_"@ + normalized_identity(pc)
}

/// The registry key for a postal code.
pub fn address_check_key(pc: &str) -> (r: String)
    ensures
        r@ == address_key(pc@),
{
    let mut s = String::from_str("address_check_");
    let n = pc.unicode_len();
    let mut i: usize = 0;
    proof {
        reveal_strlit("address_check_");
    }
    while i < n
        invariant
            n == pc@.len(),
            i <= n,
            s@ == "address_check_"@ + normalized_identity(pc@.subrange(0, i as int)),
        decreases n - i,
    {
        let c = pc.get_char(i);
        let d = if c == ' ' || c == '\t' || c == '\n' || c == '\r' || c == '\x0C' {
            '_'
        } else {
            c
        };
        push_char(&mut s, d);
        proof {
            assert(normalized_identity(pc@.subrange(0, i as int + 1)) =~= normalized_identity(
                pc@.subrange(0, i as int),
            ).push(d));
        }
        i = i + 1;
    }
    assert(pc@.subrange(0, n as int) =~= pc@);
    s
}

/// The marker written for a postal code whose address lookup came back
/// empty or failed: a sentinel under the registry key, kept for
/// [`ADDRESS_CHECK_TTL`].
pub fn redis_set_addresses_checked(pc: &str) -> (r: CacheWrite)
    ensures
        r.key@ == address_key(pc@),
        r.value@ == seq!['1'],
        r.expiry_secs == ADDRESS_CHECK_TTL,
{
    proof {
        reveal_strlit("1");
    }
    CacheWrite { key: address_check_key(pc), value: String::from_str("1"), expiry_secs: ADDRESS_CHECK_TTL }
}

/// The byte that serde_json reads from a text, if it reads one.
pub uninterp spec fn u8_of_json(s: Seq<char>) -> Option<u8>;

/// Relies on `serde_json::from_str::<u8>`: it reads the text alone, an
/// error means there was no byte to read, and the text `1` reads as 1.
#[verifier::external_body]
fn u8_from_json(s: &str) -> (r: Result<u8, serde_json::Error>)
    ensures
        match r {
            Ok(v) => u8_of_json(s@) == Some(v) && (s@ == seq!['1'] ==> v == 1),
            Err(_) => u8_of_json(s@) is None && s@ != seq!['1'],
        },
{
    serde_json::from_str::<u8>(s)
}

/// Whether the registry holds a marker, given what a read of the registry
/// key returned: only a value that decodes as a marker byte counts, so a
/// miss and an undecodable value both read as unchecked.
pub fn redis_addresses_have_been_checked(stored: &Option<String>) -> (r: bool)
    ensures
        r == (stored matches Some(s) && u8_of_json(s@) is Some),
        stored matches Some(s) && s@ == seq!['1'] ==> r,
{
    match stored {
        Some(s) => match u8_from_json(s.as_str()) {
            Ok(_) => true,
            Err(_) => false,
        },
        None => false,
    }
}

/// Before a postal code is marked, a store that never held its key reports
/// no marker; after the marker is written the read returns it (which
/// [`redis_addresses_have_been_checked`] counts as checked) until it
/// expires, and nothing from then on.
pub proof fn lemma_negative_check_round_trip(m: StoreModel, pc: Seq<char>, now: int, t: int)
    ensures
        !m.contains_key(address_key(pc)) ==> store_lookup(m, address_key(pc), t) is None,
        now <= t < now + ADDRESS_CHECK_TTL ==> store_lookup(
            store_after_write(m, address_key(pc), seq!['1'], ADDRESS_CHECK_TTL, now),
            address_key(pc),
            t,
        ) == Some(seq!['1']),
        t >= now + ADDRESS_CHECK_TTL ==> store_lookup(
            store_after_write(m, address_key(pc), seq!['1'], ADDRESS_CHECK_TTL, now),
            address_key(pc),
            t,
        ) is None,
{
}


#[verifier::external_type_specification]
#[verifier::external_body]
pub struct ExJsonError(serde_json::Error);

/// The JSON array text that serde_json writes for a list of strings.
pub uninterp spec fn json_of_strings(v: Seq<Seq<char>>) -> Seq<char>;

/// The list of strings that serde_json reads from a text, if it reads one.
pub uninterp spec fn strings_of_json(s: Seq<char>) -> Option<Seq<Seq<char>>>;

/// Relies on `serde_json::to_string` for `Vec<String>`: the text depends
/// on the strings alone, and it cannot fail, as it fails only for a
/// failing `Serialize` impl or a map with non-string keys.
#[verifier::external_body]
fn strings_to_json(v: &Vec<String>) -> (r: Result<String, serde_json::Error>)
    ensures
        r is Ok,
        r matches Ok(s) ==> s@ == json_of_strings(v.deep_view()),
{
    serde_json::to_string(v)
}

/// Relies on `serde_json::from_str::<Vec<String>>`: it reads the text
/// alone, and an error means there was no list of strings to read.
#[verifier::external_body]
fn strings_from_json(s: &str) -> (r: Result<Vec<String>, serde_json::Error>)
    ensures
        match r {
            Ok(v) => strings_of_json(s@) == Some(v.deep_view()),
            Err(_) => strings_of_json(s@) is None,
        },
{
    serde_json::from_str::<Vec<String>>(s)
}

/// The write that caches a list of strings under `key` with no expiry.
pub fn redis_set_strings(key: &str, data: &Vec<String>) -> (r: Option<CacheWrite>)
    ensures
        r is Some,
        r matches Some(w) ==> w.key@ == key@ && w.value@ == json_of_strings(data.deep_view())
            && w.expiry_secs == 0,
{
    match strings_to_json(data) {
        Ok(value) => Some(CacheWrite { key: String::from_str(key), value, expiry_secs: 0 }),
        Err(_) => None,
    }
}

/// The list of strings held by what a read of the cache returned: nothing
/// for a miss or for a value that does not decode.
pub fn redis_get_strings(stored: &Option<String>) -> (r: Option<Vec<String>>)
    ensures
        stored is None ==> r is None,
        stored matches Some(s) ==> match r {
            Some(v) => strings_of_json(s@) == Some(v.deep_view()),
            None => strings_of_json(s@) is None,
        },
{
    match stored {
        Some(s) => match strings_from_json(s.as_str()) {
            Ok(v) => Some(v),
            Err(_) => None,
        },
        None => None,
    }
}


/// A value written for a domain is read back unchanged until the domain's
/// time-to-live has passed, and is gone from then on; a domain without
/// expiry keeps it until it is replaced.
pub proof fn lemma_domain_entry_lifetime(
    m: StoreModel,
    d: Domain,
    key: Seq<char>,
    value: Seq<char>,
    now: int,
    t: int,
)
    requires
        now <= t,
    ensures
        domain_ttl(d) == 0 ==> store_lookup(
            store_after_write(m, key, value, domain_ttl(d), now),
            key,
            t,
        ) == Some(value),
        domain_ttl(d) > 0 && t < now + domain_ttl(d) ==> store_lookup(
            store_after_write(m, key, value, domain_ttl(d), now),
            key,
            t,
        ) == Some(value),
        domain_ttl(d) > 0 && t >= now + domain_ttl(d) ==> store_lookup(
            store_after_write(m, key, value, domain_ttl(d), now),
            key,
            t,
        ) is None,
{
}

}
