//! Shape checks on query values and postal codes, and the choice of a
//! client identity for the address provider.

use vstd::prelude::*;
use crate::text::{trim_text, trimmed_of};

verus! {

/// Whether the regular expression matches somewhere in the text, case
/// sensitive, as string_patterns evaluates it.
pub uninterp spec fn regex_matches(s: Seq<char>, pattern: Seq<char>) -> bool;

/// The strings, in order, in which the regular expression matches
/// somewhere ignoring case, as string_patterns filters them (all of them
/// when the pattern does not compile).
pub uninterp spec fn filtered_ci(items: Seq<Seq<char>>, pattern: Seq<char>) -> Seq<Seq<char>>;

/// The text in upper case, as `str::to_uppercase` gives it.
pub uninterp spec fn upper_of(s: Seq<char>) -> Seq<char>;

/// Relies on string_patterns' `PatternMatch::pattern_match_cs`: a regex
/// match (false when the pattern does not compile) that depends on the
/// text and the pattern alone.
#[verifier::external_body]
fn pattern_match_cs(s: &str, pattern: &str) -> (r: bool)
    ensures
        r == regex_matches(s@, pattern@),
{
    string_patterns::PatternMatch::pattern_match_cs(&s, pattern)
}

/// Relies on string_patterns' `PatternFilter::pattern_filter_ci` on a
/// slice of strings: the result depends on the strings and the pattern
/// alone.
#[verifier::external_body]
fn pattern_filter_ci(items: &Vec<String>, pattern: &str) -> (r: Vec<String>)
    ensures
        r.deep_view() == filtered_ci(items.deep_view(), pattern@),
{
    string_patterns::PatternFilter::pattern_filter_ci(items.as_slice(), pattern)
}

/// Relies on `str::to_uppercase`: the result depends on the text alone.
#[verifier::external_body]
fn uppercase(s: &str) -> (r: String)
    ensures
        r@ == upper_of(s@),
{
    s.to_uppercase()
}

/// The text starts with a date `YYYY-MM-DD`.
pub fn is_valid_date_string(dt_str: &str) -> (r: bool)
    ensures
        r == regex_matches(dt_str@, "^\\d\\d\\d\\d-[01]\\d-[0-3]\\d"@),
{
    pattern_match_cs(dt_str, "^\\d\\d\\d\\d-[01]\\d-[0-3]\\d")
}

/// The text starts with an `Area/Location` zone name.
pub fn is_valid_zone_name(zn: &str) -> (r: bool)
    ensures
        r == regex_matches(zn@, "^\\w+/\\w+"@),
{
    pattern_match_cs(zn, "^\\w+/\\w+")
}

/// The text starts like a UK postcode: letters, a digit, a space, a digit.
pub fn is_valid_uk_postcode(pc: &str) -> (r: bool)
    ensures
        r == regex_matches(pc@, "^[A-Z]+\\d\\s\\d"@),
{
    pattern_match_cs(pc, "^[A-Z]+\\d\\s\\d")
}

/// The postcode to send to the address provider: trimmed and upper-cased,
/// and only when it has the shape of a UK postcode.
pub fn address_query_code(pc: &str) -> (r: Option<String>)
    ensures
        r is Some <==> regex_matches(upper_of(trimmed_of(pc@)), "^[A-Z]+\\d\\s\\d"@),
        r matches Some(c) ==> c@ == upper_of(trimmed_of(pc@)),
{
    let trimmed = trim_text(pc);
    let code = uppercase(trimmed.as_str());
    if is_valid_uk_postcode(code.as_str()) {
        Some(code)
    } else {
        None
    }
}

/// The addresses that mention the postcode, ignoring case, in order.
pub fn filter_addresses(addresses: &Vec<String>, code: &str) -> (r: Vec<String>)
    ensures
        r.deep_view() == filtered_ci(addresses.deep_view(), code@),
{
    pattern_filter_ci(addresses, code)
}

/// Client identity used when no list of identities is available.
pub const DEFAULT_USER_AGENT: &'static str = "Mozilla/5.0 (Windows NT 10.0; Win64; x64) AppleWebKit/537.36 (KHTML, like Gecko) Chrome/117.0.0.0 Safari/537.36";

/// Relies on rand's `thread_rng().gen::<usize>()`: nothing is known of
/// the value.
#[verifier::external_body]
fn random_usize() -> (r: usize) {
    rand::Rng::gen::<usize>(&mut rand::thread_rng())
}

/// The identity that a random draw picks: one of the lines when there are
/// at least two, the default identity otherwise.
pub fn pick_user_agent(lines: &Vec<String>, random: usize) -> (r: String)
    ensures
        lines@.len() > 1 ==> r@ == lines@[(random as int) % (lines@.len() as int)]@,
        lines@.len() <= 1 ==> r@ == DEFAULT_USER_AGENT@,
{
    if lines.len() > 1 {
        lines[random % lines.len()].clone()
    } else {
        String::from_str(DEFAULT_USER_AGENT)
    }
}

/// A randomly chosen identity among the lines.
pub fn get_random_ua_string(lines: &Vec<String>) -> (r: String)
    ensures
        lines@.len() > 1 ==> exists|i: int| 0 <= i < lines@.len() && r@ == lines@[i]@,
        lines@.len() <= 1 ==> r@ == DEFAULT_USER_AGENT@,
{
    let random = random_usize();
    pick_user_agent(lines, random)
}

/// A list of identities is worth caching once it has more than five lines.
pub fn agent_lines_worth_caching(lines: &Vec<String>) -> (r: bool)
    ensures
        r == (lines@.len() > 5),
{
    lines.len() > 5
}

}
