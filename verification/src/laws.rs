//! What holds of the curves whatever they contain.
use crate::curves::{
    lemma_key_at_keyframe, next_key, prev_key, without_future, without_past,
};
use crate::dynamic::{curve_type_path, curve_type_prefix, PolicyKind};
use crate::erased::{CurveError, ErasedValue};
use crate::linear::{blend_ratio, linear_segment, LinearSegment};
use crate::object_state::{
    add_outcome, after_add, after_remove, is_registered_at, lemma_position, names_unique,
    position, ObjectStateView,
};
use crate::ordered::{
    admits, lemma_first_within_says, lemma_last_within_says, lemma_none_within, lists_range,
};
use crate::pulse::pulse_key;
use crate::stepped::stepped_key;
use std::ops::Bound;
use vstd::prelude::*;

verus! {

/// Exact hits are never blended. After keyframes were inserted at three
/// ticks, in whatever curve, a linear curve is in an exact segment at the
/// first and at the last of them (and at the middle one), and the keyframe
/// there is the one inserted: the state is a clone of it.
pub proof fn law_exact_hits_are_never_blended<T>(
    m: Map<u64, T>,
    t1: u64,
    t2: u64,
    t3: u64,
    v1: T,
    v2: T,
    v3: T,
)
    requires
        t1 < t2 < t3,
    ensures
        ({
            let filled = m.insert(t1, v1).insert(t2, v2).insert(t3, v3);
            &&& linear_segment(filled, t1) == LinearSegment::Exact && filled[t1] == v1
            &&& linear_segment(filled, t2) == LinearSegment::Exact && filled[t2] == v2
            &&& linear_segment(filled, t3) == LinearSegment::Exact && filled[t3] == v3
        }),
{
}

/// A tick that holds a keyframe names that keyframe as its state under each
/// policy.
pub proof fn law_keyframe_is_its_own_state<T>(m: Map<u64, T>, tick: u64)
    requires
        m.contains_key(tick),
    ensures
        linear_segment(m, tick) == LinearSegment::Exact,
        stepped_key(m, tick) == Some(tick),
        pulse_key(m, tick) == Some(tick),
{
    lemma_key_at_keyframe(m, tick);
}

/// What a linear curve blends at a tick that holds no keyframe: the nearest
/// keyframes on either side of it, with no keyframe between the two, and by
/// a ratio strictly between 0 and 1. What it holds past its last keyframe
/// is that last keyframe.
pub proof fn law_linear_segment_is_between_neighbours<T>(m: Map<u64, T>, tick: u64)
    ensures
        match linear_segment(m, tick) {
            LinearSegment::Undefined => forall|k: u64| #[trigger] m.contains_key(k) ==> tick < k,
            LinearSegment::Exact => m.contains_key(tick),
            LinearSegment::Hold { at } => {
                &&& m.contains_key(at)
                &&& at < tick
                &&& forall|k: u64| #[trigger] m.contains_key(k) ==> k <= at
            },
            LinearSegment::Blend { prev, next } => {
                &&& m.contains_key(prev)
                &&& m.contains_key(next)
                &&& prev < tick < next
                &&& forall|k: u64| #[trigger] m.contains_key(k) ==> k <= prev || next <= k
                &&& blend_ratio(prev, tick, next).is_interior()
                &&& blend_ratio(prev, tick, next).in_unit_interval()
            },
        },
{
    let before = (Bound::<u64>::Unbounded, Bound::Excluded(tick));
    let after = (Bound::Excluded(tick), Bound::<u64>::Unbounded);
    lemma_last_within_says(m, before.0, before.1);
    lemma_first_within_says(m, after.0, after.1);
    assert forall|k: u64| #[trigger] m.contains_key(k) implies (k == tick || admits(
        before.0,
        before.1,
        k,
    ) || admits(after.0, after.1, k)) by {}
}

/// Where no keyframe lies on or before a tick, no policy defines a state
/// there.
pub proof fn law_no_state_before_first_keyframe<T>(m: Map<u64, T>, tick: u64)
    requires
        prev_key(m, tick) is None,
    ensures
        linear_segment(m, tick) == LinearSegment::Undefined,
        stepped_key(m, tick) is None,
        pulse_key(m, tick) is None,
{
    lemma_last_within_says(m, Bound::Unbounded, Bound::Included(tick));
    assert(!m.contains_key(tick)) by {
        if m.contains_key(tick) {
            assert(admits(Bound::Unbounded, Bound::Included(tick), tick));
        }
    }
    assert forall|k: u64| #[trigger] m.contains_key(k) implies !admits(
        Bound::Unbounded,
        Bound::Excluded(tick),
        k,
    ) by {
        assert(!admits(Bound::Unbounded, Bound::Included(tick), k));
    }
    lemma_none_within(m, Bound::Unbounded, Bound::Excluded(tick));
}

/// Inserting is idempotent: the same keyframe inserted twice at a tick
/// leaves what inserting it once leaves.
pub proof fn law_insert_is_idempotent<T>(m: Map<u64, T>, tick: u64, keyframe: T)
    ensures
        m.insert(tick, keyframe).insert(tick, keyframe) == m.insert(tick, keyframe),
{
    assert(m.insert(tick, keyframe).insert(tick, keyframe) =~= m.insert(tick, keyframe));
}

/// Inserting at an occupied tick overwrites: only the later keyframe is
/// found there, and nothing is kept of the earlier one.
pub proof fn law_insert_overwrites<T>(m: Map<u64, T>, tick: u64, earlier: T, later: T)
    ensures
        m.insert(tick, earlier).insert(tick, later)[tick] == later,
        m.insert(tick, earlier).insert(tick, later) == m.insert(tick, later),
{
    assert(m.insert(tick, earlier).insert(tick, later) =~= m.insert(tick, later));
}

/// After the keyframes on or after `tick` were removed, the keyframes listed
/// from an earlier tick `from` on all lie before `tick`: they are the ones
/// that the curve held from `from` up to `tick`, that one excluded. Every
/// keyframe before `tick` is still there, as it was.
pub proof fn law_pruned_future_is_gone<T>(
    m: Map<u64, T>,
    tick: u64,
    from: u64,
    listed: Seq<(u64, T)>,
)
    requires
        from < tick,
        lists_range(listed, without_future(m, tick), Bound::Included(from), Bound::Unbounded),
    ensures
        forall|i: int| 0 <= i < listed.len() ==> (#[trigger] listed[i]).0 < tick,
        lists_range(listed, m, Bound::Included(from), Bound::Excluded(tick)),
        forall|k: u64|
            k < tick && #[trigger] m.contains_key(k) ==> without_future(m, tick).contains_key(k)
                && without_future(m, tick)[k] == m[k],
        forall|k: u64| #[trigger] without_future(m, tick).contains_key(k) ==> k < tick,
        next_key(without_future(m, tick), tick) is None,
{
    let pruned = without_future(m, tick);
    lemma_none_within(pruned, Bound::Included(tick), Bound::Unbounded);
    assert forall|i: int| 0 <= i < listed.len() implies {
        &&& (#[trigger] listed[i]).0 < tick
        &&& m.contains_key(listed[i].0)
        &&& admits(Bound::Included(from), Bound::Excluded(tick), listed[i].0)
        &&& listed[i].1 == m[listed[i].0]
    } by {
        assert(pruned.contains_key(listed[i].0));
    }
    assert forall|k: u64| #[trigger]
        m.contains_key(k) && admits(Bound::Included(from), Bound::Excluded(tick), k) implies exists|
        i: int,
    |
        0 <= i < listed.len() && (#[trigger] listed[i]).0 == k by {
        assert(pruned.contains_key(k));
        assert(admits(Bound::Included(from), Bound::Unbounded, k));
    }
}

/// The mirror image for the past: after the keyframes on or before `tick`
/// were removed, every keyframe after `tick` is still there, as it was, and
/// none is left on or before `tick`.
pub proof fn law_pruned_past_is_gone<T>(m: Map<u64, T>, tick: u64)
    ensures
        forall|k: u64|
            k > tick && #[trigger] m.contains_key(k) ==> without_past(m, tick).contains_key(k)
                && without_past(m, tick)[k] == m[k],
        forall|k: u64| #[trigger] without_past(m, tick).contains_key(k) ==> k > tick,
        prev_key(without_past(m, tick), tick) is None,
{
    lemma_none_within(
        without_past(m, tick),
        Bound::Unbounded,
        Bound::Included(tick),
    );
}

/// A listing of a range is determined by the map and the bounds: two
/// sequences that list the same range are the same sequence.
pub proof fn law_listing_is_unique<T>(
    first: Seq<(u64, T)>,
    second: Seq<(u64, T)>,
    m: Map<u64, T>,
    lo: Bound<u64>,
    hi: Bound<u64>,
)
    requires
        lists_range(first, m, lo, hi),
        lists_range(second, m, lo, hi),
    ensures
        first == second,
    decreases first.len(),
{
    if first.len() == 0 {
        if second.len() > 0 {
            assert(m.contains_key(second[0].0) && admits(lo, hi, second[0].0));
        }
        assert(first =~= second);
    } else {
        let last = first.last();
        assert(m.contains_key(last.0) && admits(lo, hi, last.0));
        let at = choose|i: int| 0 <= i < second.len() && (#[trigger] second[i]).0 == last.0;
        assert(at == second.len() - 1) by {
            if at < second.len() - 1 {
                let beyond = second.last();
                assert(second[at].0 < beyond.0);
                assert(m.contains_key(beyond.0) && admits(lo, hi, beyond.0));
                let back = choose|i: int|
                    0 <= i < first.len() && (#[trigger] first[i]).0 == beyond.0;
                if back < first.len() - 1 {
                    assert(first[back].0 < last.0);
                }
            }
        }
        let cut = Bound::Excluded(last.0);
        assert(lists_range(first.drop_last(), m, lo, cut)) by {
            assert forall|i: int| 0 <= i < first.drop_last().len() implies {
                &&& m.contains_key((#[trigger] first.drop_last()[i]).0)
                &&& admits(lo, cut, first.drop_last()[i].0)
                &&& first.drop_last()[i].1 == m[first.drop_last()[i].0]
            } by {
                assert(first[i].0 < last.0);
                assert(admits(lo, hi, first[i].0));
            }
            assert forall|k: u64| #[trigger] m.contains_key(k) && admits(lo, cut, k) implies exists|
                i: int,
            |
                0 <= i < first.drop_last().len() && (#[trigger] first.drop_last()[i]).0 == k by {
                assert(admits(lo, hi, k));
                let i = choose|i: int| 0 <= i < first.len() && (#[trigger] first[i]).0 == k;
                assert(first.drop_last()[i].0 == k);
            }
        }
        assert(lists_range(second.drop_last(), m, lo, cut)) by {
            assert forall|i: int| 0 <= i < second.drop_last().len() implies {
                &&& m.contains_key((#[trigger] second.drop_last()[i]).0)
                &&& admits(lo, cut, second.drop_last()[i].0)
                &&& second.drop_last()[i].1 == m[second.drop_last()[i].0]
            } by {
                assert(second[i].0 < second[at].0);
                assert(admits(lo, hi, second[i].0));
            }
            assert forall|k: u64| #[trigger] m.contains_key(k) && admits(lo, cut, k) implies exists|
                i: int,
            |
                0 <= i < second.drop_last().len() && (#[trigger] second.drop_last()[i]).0 == k by {
                assert(admits(lo, hi, k));
                let i = choose|i: int| 0 <= i < second.len() && (#[trigger] second[i]).0 == k;
                assert(second.drop_last()[i].0 == k);
            }
        }
        law_listing_is_unique(first.drop_last(), second.drop_last(), m, lo, cut);
        assert(first.last() == second.last());
        assert(first =~= first.drop_last().push(first.last()));
        assert(second =~= second.drop_last().push(second.last()));
    }
}

/// A listing from a tick on starts with the keyframe that `next_keyframe`
/// finds from that tick, and is empty where it finds none.
pub proof fn law_listing_starts_at_next<T>(m: Map<u64, T>, tick: u64, listed: Seq<(u64, T)>)
    requires
        lists_range(listed, m, Bound::Included(tick), Bound::Unbounded),
    ensures
        match next_key(m, tick) {
            Some(k) => listed.len() > 0 && listed[0].0 == k,
            None => listed.len() == 0,
        },
{
    let lo = Bound::Included(tick);
    let hi = Bound::<u64>::Unbounded;
    lemma_first_within_says(m, lo, hi);
    match next_key(m, tick) {
        Some(k) => {
            let i = choose|i: int| 0 <= i < listed.len() && (#[trigger] listed[i]).0 == k;
            if i > 0 {
                assert(listed[0].0 < listed[i].0);
                assert(m.contains_key(listed[0].0) && admits(lo, hi, listed[0].0));
            }
        },
        None => {
            if listed.len() > 0 {
                assert(m.contains_key(listed[0].0) && admits(lo, hi, listed[0].0));
            }
        },
    }
}

/// Type safety of the object state: a keyframe whose value is not of the
/// type declared for its curve name is refused with `TypeMismatch`, and the
/// object state is left as it was.
pub proof fn law_mismatched_type_is_refused<P>(
    state: ObjectStateView<P>,
    name: Seq<char>,
    tick: u64,
    policy_kind: PolicyKind,
    value: ErasedValue<P>,
)
    requires
        position(state.curves, name) is Some,
        state.curves[position(state.curves, name)->0].curve.value_type != value.type_path(),
    ensures
        add_outcome(state, name, policy_kind, value) == Err::<(), CurveError>(
            CurveError::TypeMismatch,
        ),
        after_add(state, name, tick, policy_kind, value) == state,
{
    law_refused_keyframe_changes_nothing(state, name, tick, policy_kind, value);
}

/// A keyframe that is refused, for its type or for its policy, changes
/// nothing.
pub proof fn law_refused_keyframe_changes_nothing<P>(
    state: ObjectStateView<P>,
    name: Seq<char>,
    tick: u64,
    policy_kind: PolicyKind,
    value: ErasedValue<P>,
)
    requires
        add_outcome(state, name, policy_kind, value) is Err,
    ensures
        after_add(state, name, tick, policy_kind, value) == state,
{
    let i = position(state.curves, name)->0;
    assert(is_registered_at(state.curves, name, i));
    assert(after_add(state, name, tick, policy_kind, value).curves =~= state.curves);
}

/// Registration is permanent. Whatever keyframe is added or removed under
/// whatever name, a name that was registered stays registered, in its place,
/// with the value type and the policy that it was declared with.
pub proof fn law_registration_is_permanent<P>(
    state: ObjectStateView<P>,
    registered_name: Seq<char>,
    name: Seq<char>,
    tick: u64,
    policy_kind: PolicyKind,
    value: ErasedValue<P>,
)
    requires
        names_unique(state.curves),
        position(state.curves, registered_name) is Some,
    ensures
        ({
            let i = position(state.curves, registered_name)->0;
            let added = after_add(state, name, tick, policy_kind, value);
            let removed = after_remove(state, name, tick);
            &&& names_unique(added.curves)
            &&& position(added.curves, registered_name) == Some(i)
            &&& added.curves[i].curve.value_type == state.curves[i].curve.value_type
            &&& added.curves[i].curve.policy == state.curves[i].curve.policy
            &&& names_unique(removed.curves)
            &&& position(removed.curves, registered_name) == Some(i)
            &&& removed.curves[i].curve.value_type == state.curves[i].curve.value_type
            &&& removed.curves[i].curve.policy == state.curves[i].curve.policy
        }),
{
    let i = position(state.curves, registered_name)->0;
    assert(is_registered_at(state.curves, registered_name, i));
    let added = after_add(state, name, tick, policy_kind, value);
    let removed = after_remove(state, name, tick);
    match position(state.curves, name) {
        Some(j) => {
            assert(is_registered_at(state.curves, name, j));
            assert forall|a: int, b: int| 0 <= a < b < added.curves.len() implies (
            #[trigger] added.curves[a]).name != (#[trigger] added.curves[b]).name by {
                assert(state.curves[a].name != state.curves[b].name);
            }
            assert forall|a: int, b: int| 0 <= a < b < removed.curves.len() implies (
            #[trigger] removed.curves[a]).name != (#[trigger] removed.curves[b]).name by {
                assert(state.curves[a].name != state.curves[b].name);
            }
        },
        None => {
            assert forall|a: int, b: int| 0 <= a < b < added.curves.len() implies (
            #[trigger] added.curves[a]).name != (#[trigger] added.curves[b]).name by {
                if b < state.curves.len() {
                    assert(state.curves[a].name != state.curves[b].name);
                } else {
                    assert(!is_registered_at(state.curves, name, a));
                }
            }
        },
    }
    assert(is_registered_at(added.curves, registered_name, i));
    assert(is_registered_at(removed.curves, registered_name, i));
    lemma_position(added.curves, registered_name, i);
    lemma_position(removed.curves, registered_name, i);
}

/// Curves have the same type path only if they have the same policy and the
/// same value type.
pub proof fn law_type_path_tells_curves_apart(
    policy: PolicyKind,
    value_type: Seq<char>,
    other_policy: PolicyKind,
    other_value_type: Seq<char>,
)
    requires
        curve_type_path(policy, value_type) == curve_type_path(other_policy, other_value_type),
    ensures
        policy == other_policy,
        value_type == other_value_type,
{
    reveal_strlit("LinearCurve<");
    reveal_strlit("SteppedCurve<");
    reveal_strlit("PulseCurve<");
    reveal_strlit(">");
    let path = curve_type_path(policy, value_type);
    let other_path = curve_type_path(other_policy, other_value_type);
    let prefix = curve_type_prefix(policy);
    let other_prefix = curve_type_prefix(other_policy);
    assert(path[0] == prefix[0]);
    assert(other_path[0] == other_prefix[0]);
    assert(policy == other_policy);
    assert(path.len() == prefix.len() + value_type.len() + 1);
    assert(other_path.len() == prefix.len() + other_value_type.len() + 1);
    assert forall|i: int| 0 <= i < value_type.len() implies value_type[i]
        == other_value_type[i] by {
        assert(path[prefix.len() + i] == value_type[i]);
        assert(other_path[prefix.len() + i] == other_value_type[i]);
    }
    assert(value_type =~= other_value_type);
}

} // verus!
