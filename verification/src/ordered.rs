//! Range queries on a `BTreeMap` keyed by ticks.
//!
//! vstd specifies the point operations of `BTreeMap` (`insert`, `get`,
//! `remove`). The ordered operations (`range`, `range_mut`, `get_mut`,
//! `retain`) are called here, each behind a function whose contract restates
//! the documentation of the standard library over the map's view.
use std::collections::BTreeMap;
use std::ops::Bound;
use vstd::prelude::*;

verus! {

/// `std::ops::Bound`: one end of a range of ticks, with the tick it names
/// included or excluded, or no end at all.
#[verifier::external_type_specification]
#[verifier::reject_recursive_types(T)]
pub struct ExBound<T>(Bound<T>);

/// Whether tick `k` lies between the lower bound `lo` and the upper bound `hi`.
pub open spec fn admits(lo: Bound<u64>, hi: Bound<u64>, k: u64) -> bool {
    &&& match lo {
        Bound::Included(a) => a <= k,
        Bound::Excluded(a) => a < k,
        Bound::Unbounded => true,
    }
    &&& match hi {
        Bound::Included(b) => k <= b,
        Bound::Excluded(b) => k < b,
        Bound::Unbounded => true,
    }
}

/// Whether `lo` and `hi` describe a range that `BTreeMap::range` accepts: the
/// start is not after the end, and the two are not the same excluded tick.
pub open spec fn orderly(lo: Bound<u64>, hi: Bound<u64>) -> bool {
    match (lo, hi) {
        (Bound::Unbounded, _) => true,
        (_, Bound::Unbounded) => true,
        (Bound::Excluded(a), Bound::Excluded(b)) => a < b,
        (Bound::Included(a), Bound::Included(b)) => a <= b,
        (Bound::Included(a), Bound::Excluded(b)) => a <= b,
        (Bound::Excluded(a), Bound::Included(b)) => a <= b,
    }
}

/// `k` is the earliest key of `m` within the bounds.
pub open spec fn is_first_within<T>(
    m: Map<u64, T>,
    lo: Bound<u64>,
    hi: Bound<u64>,
    k: u64,
) -> bool {
    &&& m.contains_key(k)
    &&& admits(lo, hi, k)
    &&& forall|j: u64| #[trigger] m.contains_key(j) && admits(lo, hi, j) ==> k <= j
}

/// `k` is the latest key of `m` within the bounds.
pub open spec fn is_last_within<T>(m: Map<u64, T>, lo: Bound<u64>, hi: Bound<u64>, k: u64) -> bool {
    &&& m.contains_key(k)
    &&& admits(lo, hi, k)
    &&& forall|j: u64| #[trigger] m.contains_key(j) && admits(lo, hi, j) ==> j <= k
}

/// No key of `m` lies within the bounds.
pub open spec fn none_within<T>(m: Map<u64, T>, lo: Bound<u64>, hi: Bound<u64>) -> bool {
    forall|j: u64| #[trigger] m.contains_key(j) ==> !admits(lo, hi, j)
}

/// The earliest key of `m` within the bounds, if there is one.
pub open spec fn first_within<T>(m: Map<u64, T>, lo: Bound<u64>, hi: Bound<u64>) -> Option<u64> {
    if exists|k: u64| is_first_within(m, lo, hi, k) {
        Some(choose|k: u64| is_first_within(m, lo, hi, k))
    } else {
        None
    }
}

/// The latest key of `m` within the bounds, if there is one.
pub open spec fn last_within<T>(m: Map<u64, T>, lo: Bound<u64>, hi: Bound<u64>) -> Option<u64> {
    if exists|k: u64| is_last_within(m, lo, hi, k) {
        Some(choose|k: u64| is_last_within(m, lo, hi, k))
    } else {
        None
    }
}

/// `s` lists the entries of `m` whose keys lie within the bounds: each of
/// them once, with its value, in ascending order of the keys.
pub open spec fn lists_range<T>(
    s: Seq<(u64, T)>,
    m: Map<u64, T>,
    lo: Bound<u64>,
    hi: Bound<u64>,
) -> bool {
    &&& forall|i: int|
        0 <= i < s.len() ==> {
            &&& m.contains_key((#[trigger] s[i]).0)
            &&& admits(lo, hi, s[i].0)
            &&& s[i].1 == m[s[i].0]
        }
    &&& forall|i: int, j: int| 0 <= i < j < s.len() ==> (#[trigger] s[i]).0 < (#[trigger] s[j]).0
    &&& forall|k: u64| #[trigger]
        m.contains_key(k) && admits(lo, hi, k) ==> exists|i: int|
            0 <= i < s.len() && (#[trigger] s[i]).0 == k
}

/// The part of `m` whose keys lie within the bounds.
pub open spec fn restricted<T>(m: Map<u64, T>, lo: Bound<u64>, hi: Bound<u64>) -> Map<u64, T> {
    Map::new(|k: u64| m.contains_key(k) && admits(lo, hi, k), |k: u64| m[k])
}

/// The entries that a vector of borrowed pairs refers to.
pub open spec fn shared_entries<T>(v: Seq<(&u64, &T)>) -> Seq<(u64, T)> {
    Seq::new(v.len(), |i: int| (*v[i].0, *v[i].1))
}

/// The entries that a vector of pairs with mutable values refers to, as they
/// are when the vector is handed out.
pub open spec fn exclusive_entries<T>(v: Seq<(&u64, &mut T)>) -> Seq<(u64, T)> {
    Seq::new(v.len(), |i: int| (*v[i].0, *v[i].1))
}

/// An earliest key within the bounds is the value of [`first_within`].
pub proof fn lemma_first_within<T>(m: Map<u64, T>, lo: Bound<u64>, hi: Bound<u64>, k: u64)
    requires
        is_first_within(m, lo, hi, k),
    ensures
        first_within(m, lo, hi) == Some(k),
{
    let chosen = choose|c: u64| is_first_within(m, lo, hi, c);
    assert(is_first_within(m, lo, hi, chosen));
    assert(chosen <= k && k <= chosen);
}

/// A latest key within the bounds is the value of [`last_within`].
pub proof fn lemma_last_within<T>(m: Map<u64, T>, lo: Bound<u64>, hi: Bound<u64>, k: u64)
    requires
        is_last_within(m, lo, hi, k),
    ensures
        last_within(m, lo, hi) == Some(k),
{
    let chosen = choose|c: u64| is_last_within(m, lo, hi, c);
    assert(is_last_within(m, lo, hi, chosen));
    assert(chosen <= k && k <= chosen);
}

/// Where no key lies within the bounds, neither [`first_within`] nor
/// [`last_within`] names one.
pub proof fn lemma_none_within<T>(m: Map<u64, T>, lo: Bound<u64>, hi: Bound<u64>)
    requires
        none_within(m, lo, hi),
    ensures
        first_within(m, lo, hi) is None,
        last_within(m, lo, hi) is None,
{
    assert forall|k: u64| !is_first_within(m, lo, hi, k) by {
        if m.contains_key(k) {
            assert(!admits(lo, hi, k));
        }
    }
    assert forall|k: u64| !is_last_within(m, lo, hi, k) by {
        if m.contains_key(k) {
            assert(!admits(lo, hi, k));
        }
    }
}

/// Some key within the bounds has an earliest one below or at it.
pub proof fn lemma_first_exists<T>(m: Map<u64, T>, lo: Bound<u64>, hi: Bound<u64>, j: u64)
    requires
        m.contains_key(j),
        admits(lo, hi, j),
    ensures
        exists|k: u64| is_first_within(m, lo, hi, k),
    decreases j,
{
    if exists|i: u64| i < j && m.contains_key(i) && admits(lo, hi, i) {
        let i = choose|i: u64| i < j && m.contains_key(i) && admits(lo, hi, i);
        lemma_first_exists(m, lo, hi, i);
    } else {
        assert(is_first_within(m, lo, hi, j));
    }
}

/// Some key within the bounds has a latest one above or at it.
pub proof fn lemma_last_exists<T>(m: Map<u64, T>, lo: Bound<u64>, hi: Bound<u64>, j: u64)
    requires
        m.contains_key(j),
        admits(lo, hi, j),
    ensures
        exists|k: u64| is_last_within(m, lo, hi, k),
    decreases u64::MAX - j,
{
    if exists|i: u64| j < i && m.contains_key(i) && admits(lo, hi, i) {
        let i = choose|i: u64| j < i && m.contains_key(i) && admits(lo, hi, i);
        lemma_last_exists(m, lo, hi, i);
    } else {
        assert(is_last_within(m, lo, hi, j));
    }
}

/// What [`first_within`] says of the map: the key it names is the earliest
/// within the bounds, and it names none only where there is none.
pub proof fn lemma_first_within_says<T>(m: Map<u64, T>, lo: Bound<u64>, hi: Bound<u64>)
    ensures
        match first_within(m, lo, hi) {
            Some(k) => is_first_within(m, lo, hi, k),
            None => none_within(m, lo, hi),
        },
{
    if first_within(m, lo, hi) is None {
        assert forall|j: u64| #[trigger] m.contains_key(j) implies !admits(lo, hi, j) by {
            if admits(lo, hi, j) {
                lemma_first_exists(m, lo, hi, j);
            }
        }
    }
}

/// What [`last_within`] says of the map: the key it names is the latest
/// within the bounds, and it names none only where there is none.
pub proof fn lemma_last_within_says<T>(m: Map<u64, T>, lo: Bound<u64>, hi: Bound<u64>)
    ensures
        match last_within(m, lo, hi) {
            Some(k) => is_last_within(m, lo, hi, k),
            None => none_within(m, lo, hi),
        },
{
    if last_within(m, lo, hi) is None {
        assert forall|j: u64| #[trigger] m.contains_key(j) implies !admits(lo, hi, j) by {
            if admits(lo, hi, j) {
                lemma_last_exists(m, lo, hi, j);
            }
        }
    }
}

/// Whether tick `k` lies between `lo` and `hi`.
pub fn within(lo: &Bound<u64>, hi: &Bound<u64>, k: u64) -> (inside: bool)
    ensures
        inside == admits(*lo, *hi, k),
{
    let above = match lo {
        Bound::Included(a) => *a <= k,
        Bound::Excluded(a) => *a < k,
        Bound::Unbounded => true,
    };
    let below = match hi {
        Bound::Included(b) => k <= *b,
        Bound::Excluded(b) => k < *b,
        Bound::Unbounded => true,
    };
    above && below
}

/// `BTreeMap::range`, then the first item of the iterator it returns. The
/// iterator walks the entries within the bounds in ascending order of the
/// keys, so the item is the entry with the earliest such key, and there is no
/// item where no key lies within the bounds.
#[verifier::external_body]
pub(crate) fn range_first<'a, T>(
    map: &'a BTreeMap<u64, T>,
    lo: Bound<u64>,
    hi: Bound<u64>,
) -> (first: Option<(&'a u64, &'a T)>)
    requires
        orderly(lo, hi),
    ensures
        match first {
            Some((k, v)) => is_first_within(map@, lo, hi, *k) && *v == map@[*k],
            None => none_within(map@, lo, hi),
        },
{
    map.range((lo, hi)).next()
}

/// `BTreeMap::range`, then the last item of the double-ended iterator it
/// returns: the entry with the latest key within the bounds, if any.
#[verifier::external_body]
pub(crate) fn range_last<'a, T>(
    map: &'a BTreeMap<u64, T>,
    lo: Bound<u64>,
    hi: Bound<u64>,
) -> (last: Option<(&'a u64, &'a T)>)
    requires
        orderly(lo, hi),
    ensures
        match last {
            Some((k, v)) => is_last_within(map@, lo, hi, *k) && *v == map@[*k],
            None => none_within(map@, lo, hi),
        },
{
    map.range((lo, hi)).next_back()
}

/// `BTreeMap::range`, with the items of its iterator collected: the entries
/// within the bounds, in ascending order of the keys.
#[verifier::external_body]
pub(crate) fn range_all<'a, T>(
    map: &'a BTreeMap<u64, T>,
    lo: Bound<u64>,
    hi: Bound<u64>,
) -> (all: Vec<(&'a u64, &'a T)>)
    requires
        orderly(lo, hi),
    ensures
        lists_range(shared_entries(all@), map@, lo, hi),
{
    map.range((lo, hi)).collect()
}

/// `BTreeMap::range_mut`, then the first item of its iterator. As
/// [`range_first`], but the value can be written through the reference; the
/// map changes in no other way.
#[verifier::external_body]
pub(crate) fn range_first_mut<'a, T>(
    map: &'a mut BTreeMap<u64, T>,
    lo: Bound<u64>,
    hi: Bound<u64>,
) -> (first: Option<(&'a u64, &'a mut T)>)
    requires
        orderly(lo, hi),
    ensures
        match first {
            Some((k, v)) => {
                &&& is_first_within(old(map)@, lo, hi, *k)
                &&& *v == old(map)@[*k]
                &&& final(map)@ == old(map)@.insert(*k, *final(v))
            },
            None => none_within(old(map)@, lo, hi) && final(map)@ == old(map)@,
        },
{
    map.range_mut((lo, hi)).next()
}

/// `BTreeMap::range_mut`, then the last item of its double-ended iterator. As
/// [`range_last`], but the value can be written through the reference; the
/// map changes in no other way.
#[verifier::external_body]
pub(crate) fn range_last_mut<'a, T>(
    map: &'a mut BTreeMap<u64, T>,
    lo: Bound<u64>,
    hi: Bound<u64>,
) -> (last: Option<(&'a u64, &'a mut T)>)
    requires
        orderly(lo, hi),
    ensures
        match last {
            Some((k, v)) => {
                &&& is_last_within(old(map)@, lo, hi, *k)
                &&& *v == old(map)@[*k]
                &&& final(map)@ == old(map)@.insert(*k, *final(v))
            },
            None => none_within(old(map)@, lo, hi) && final(map)@ == old(map)@,
        },
{
    map.range_mut((lo, hi)).next_back()
}

/// `BTreeMap::range_mut`, with the items of its iterator collected. As
/// [`range_all`], but each value can be written through its reference. The
/// map keeps its keys; a value outside the bounds stays, and a value within
/// them ends as what its reference holds at last.
#[verifier::external_body]
pub(crate) fn range_all_mut<'a, T>(
    map: &'a mut BTreeMap<u64, T>,
    lo: Bound<u64>,
    hi: Bound<u64>,
) -> (all: Vec<(&'a u64, &'a mut T)>)
    requires
        orderly(lo, hi),
    ensures
        lists_range(exclusive_entries(all@), old(map)@, lo, hi),
        final(map)@.dom() == old(map)@.dom(),
        forall|k: u64| #[trigger]
            old(map)@.contains_key(k) && !admits(lo, hi, k) ==> final(map)@[k] == old(map)@[k],
        forall|i: int|
            0 <= i < all.len() ==> final(map)@[*(#[trigger] all[i]).0] == *final(all[i].1),
{
    map.range_mut((lo, hi)).collect()
}

/// `BTreeMap::get_mut`: a mutable reference to the value stored under `key`,
/// if there is one. The map changes only in what is written through it.
#[verifier::external_body]
pub(crate) fn get_mut<'a, T>(map: &'a mut BTreeMap<u64, T>, key: u64) -> (slot: Option<&'a mut T>)
    ensures
        match slot {
            Some(value) => {
                &&& old(map)@.contains_key(key)
                &&& *value == old(map)@[key]
                &&& final(map)@ == old(map)@.insert(key, *final(value))
            },
            None => !old(map)@.contains_key(key) && final(map)@ == old(map)@,
        },
{
    map.get_mut(&key)
}

/// `BTreeMap::retain`, keeping the entries whose keys lie within the bounds
/// and removing the others.
#[verifier::external_body]
pub(crate) fn retain_within<T>(map: &mut BTreeMap<u64, T>, lo: Bound<u64>, hi: Bound<u64>)
    ensures
        final(map)@ == restricted(old(map)@, lo, hi),
{
    map.retain(|k, _| within(&lo, &hi, *k));
}

} // verus!
