//! Points of interest and astronomical snapshot ageing.

use vstd::prelude::*;
use crate::text::{trim_text, trimmed_of};

verus! {

/// A point of interest near a coordinate; position and distance in
/// `10^-7` degrees and kilometres.
#[derive(Clone, Debug)]
pub struct PlaceOfInterest {
    pub lng: i64,
    pub lat: i64,
    pub distance: i64,
    pub name: String,
    pub type_class: String,
    pub type_label: String,
}

/// The shown name: the trimmed name, or the type name when that is empty.
pub open spec fn poi_name(name: Seq<char>, type_label: Seq<char>) -> Seq<char> {
    if trimmed_of(name).len() == 0 {
        type_label
    } else {
        trimmed_of(name)
    }
}

impl PlaceOfInterest {
    pub fn new(
        lng: i64,
        lat: i64,
        distance: i64,
        name: &str,
        type_class: String,
        type_label: String,
    ) -> (r: PlaceOfInterest)
        ensures
            r.lng == lng && r.lat == lat && r.distance == distance,
            r.name@ == poi_name(name@, type_label@),
            r.type_class == type_class,
            r.type_label == type_label,
    {
        let trimmed = trim_text(name);
        let shown = if trimmed.as_str().is_empty() {
            type_label.clone()
        } else {
            trimmed
        };
        PlaceOfInterest { lng, lat, distance, name: shown, type_class, type_label }
    }

    pub fn get_name(&self) -> (r: String)
        ensures
            r@ == self.name@,
    {
        self.name.clone()
    }
}

/// Some item before position `i` has the same name as item `i`.
pub open spec fn name_seen_before(s: Seq<PlaceOfInterest>, i: int) -> bool {
    exists|j: int| 0 <= j < i && #[trigger] s[j].name@ == s[i].name@
}

/// The items whose name no earlier item has, in order.
pub open spec fn first_of_each_name(s: Seq<PlaceOfInterest>) -> Seq<PlaceOfInterest>
    decreases s.len(),
{
    if s.len() == 0 {
        Seq::empty()
    } else {
        let rest = first_of_each_name(s.drop_last());
        if name_seen_before(s, s.len() - 1) {
            rest
        } else {
            rest.push(s.last())
        }
    }
}

fn contains_name(seen: &Vec<String>, name: &String) -> (r: bool)
    ensures
        r == exists|j: int| 0 <= j < seen@.len() && #[trigger] seen@[j]@ == name@,
{
    let mut i: usize = 0;
    while i < seen.len()
        invariant
            i <= seen@.len(),
            forall|j: int| 0 <= j < i ==> #[trigger] seen@[j]@ != name@,
        decreases seen@.len() - i,
    {
        if seen[i] == *name {
            return true;
        }
        i = i + 1;
    }
    false
}

/// Keeps the first point of interest of each name, in order.
pub fn build_pois(rows: Vec<PlaceOfInterest>) -> (r: Vec<PlaceOfInterest>)
    ensures
        r@ == first_of_each_name(rows@),
{
    let ghost all = rows@;
    let n = rows.len();
    let mut rest = rows;
    let mut seen: Vec<String> = Vec::new();
    let mut kept: Vec<PlaceOfInterest> = Vec::new();
    let mut i: usize = 0;
    while i < n
        invariant
            n == all.len(),
            i <= n,
            rest@ == all.subrange(i as int, n as int),
            seen@.len() == i,
            forall|j: int| 0 <= j < i ==> #[trigger] seen@[j]@ == all[j].name@,
            kept@ == first_of_each_name(all.subrange(0, i as int)),
        decreases n - i,
    {
        let row = rest.remove(0);
        assert(row == all[i as int]);
        let dup = contains_name(&seen, &row.name);
        let ghost pre = all.subrange(0, i as int + 1);
        proof {
            assert(pre.drop_last() =~= all.subrange(0, i as int));
            assert(pre.last() == row);
            if dup {
                let j = choose|j: int| 0 <= j < seen@.len() && #[trigger] seen@[j]@ == row.name@;
                assert(pre[j].name@ == pre[i as int].name@);
                assert(name_seen_before(pre, i as int));
            } else {
                assert forall|j: int| 0 <= j < i implies #[trigger] pre[j].name@ != pre[
                    i as int
                ].name@ by {
                    assert(seen@[j]@ == all[j].name@);
                }
                assert(!name_seen_before(pre, i as int));
            }
        }
        seen.push(row.name.clone());
        if !dup {
            kept.push(row);
        }
        assert(rest@ =~= all.subrange(i as int + 1, n as int));
        i = i + 1;
    }
    assert(all.subrange(0, n as int) =~= all);
    kept
}

/// Seconds between a snapshot's reference instant and `now`; `None` when
/// the difference does not fit.
pub fn age_at(now: i64, time: i64) -> (r: Option<i64>)
    ensures
        r matches Some(a) ==> a == now - time,
        r is None <==> !(i64::MIN <= now - time <= i64::MAX),
{
    now.checked_sub(time)
}

}
