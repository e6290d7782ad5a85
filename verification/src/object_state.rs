//! The curves of one object, registered by name at run time.
use crate::dynamic::{
    after_insert, has_state_under, insert_outcome, is_dynamic_state, lemma_state_where_defined,
    payload_of, DynamicCurve, DynamicCurveView, PolicyKind,
};
use crate::erased::{CurveError, ErasedValue};
use crate::keyframe_trait::{LinearKeyframe, PulseKeyframe, SteppedKeyframe};
use crate::GameTick;
use vstd::prelude::*;

verus! {

/// What a registered curve is: its name and the curve.
pub struct NamedCurveView<P> {
    pub name: Seq<char>,
    pub curve: DynamicCurveView<P>,
}

/// What an object state is: the ticks of its lifecycle and its curves, in
/// the order in which they were registered.
pub struct ObjectStateView<P> {
    pub created_tick: u64,
    pub destroyed_tick: Option<u64>,
    pub curves: Seq<NamedCurveView<P>>,
}

/// No two of the curves have the same name.
pub open spec fn names_unique<P>(curves: Seq<NamedCurveView<P>>) -> bool {
    forall|i: int, j: int|
        0 <= i < j < curves.len() ==> (#[trigger] curves[i]).name != (#[trigger] curves[j]).name
}

/// Whether the curve at index `i` is the one registered as `name`.
pub open spec fn is_registered_at<P>(
    curves: Seq<NamedCurveView<P>>,
    name: Seq<char>,
    i: int,
) -> bool {
    0 <= i < curves.len() && curves[i].name == name
}

/// The index of the curve registered as `name`, if there is one.
pub open spec fn position<P>(curves: Seq<NamedCurveView<P>>, name: Seq<char>) -> Option<int> {
    if exists|i: int| is_registered_at(curves, name, i) {
        Some(choose|i: int| is_registered_at(curves, name, i))
    } else {
        None
    }
}

/// A curve as it is registered by its first keyframe: with the type of that
/// value, the policy it was added under, and that one keyframe.
pub open spec fn registered<P>(
    name: Seq<char>,
    tick: u64,
    policy_kind: PolicyKind,
    value: ErasedValue<P>,
) -> NamedCurveView<P> {
    NamedCurveView {
        name,
        curve: DynamicCurveView {
            value_type: value.type_path(),
            policy: policy_kind,
            keyframes: Map::<u64, P>::empty().insert(tick, value.payload()),
        },
    }
}

/// What adding `value` under `name` and `policy_kind` returns. A name that
/// is not registered yet accepts any value; a registered one answers as its
/// curve does.
pub open spec fn add_outcome<P>(
    state: ObjectStateView<P>,
    name: Seq<char>,
    policy_kind: PolicyKind,
    value: ErasedValue<P>,
) -> Result<(), CurveError> {
    match position(state.curves, name) {
        Some(i) => insert_outcome(state.curves[i].curve, policy_kind, value),
        None => Ok(()),
    }
}

/// What `state` is after `value` was added at `tick` under `name` and
/// `policy_kind`. A name that is not registered yet is registered behind
/// the others. A registered one has the keyframe stored in its curve, or is
/// left as it is where its curve refuses the value.
pub open spec fn after_add<P>(
    state: ObjectStateView<P>,
    name: Seq<char>,
    tick: u64,
    policy_kind: PolicyKind,
    value: ErasedValue<P>,
) -> ObjectStateView<P> {
    match position(state.curves, name) {
        Some(i) => ObjectStateView {
            curves: state.curves.update(
                i,
                NamedCurveView {
                    name,
                    curve: after_insert(state.curves[i].curve, tick, policy_kind, value),
                },
            ),
            ..state
        },
        None => ObjectStateView {
            curves: state.curves.push(registered(name, tick, policy_kind, value)),
            ..state
        },
    }
}

/// What `state` is after the keyframe at `tick` was removed under `name`.
/// The registration of the name stays, also where no keyframe is left.
pub open spec fn after_remove<P>(
    state: ObjectStateView<P>,
    name: Seq<char>,
    tick: u64,
) -> ObjectStateView<P> {
    match position(state.curves, name) {
        Some(i) => ObjectStateView {
            curves: state.curves.update(
                i,
                NamedCurveView {
                    name,
                    curve: DynamicCurveView {
                        keyframes: state.curves[i].curve.keyframes.remove(tick),
                        ..state.curves[i].curve
                    },
                },
            ),
            ..state
        },
        None => state,
    }
}

/// The index of the curve registered as `name`, where that curve holds a
/// keyframe at `tick`.
pub open spec fn keyframe_key<P>(
    state: ObjectStateView<P>,
    name: Seq<char>,
    tick: u64,
) -> Option<int> {
    match position(state.curves, name) {
        Some(i) => if state.curves[i].curve.keyframes.contains_key(tick) {
            Some(i)
        } else {
            None
        },
        None => None,
    }
}

/// Whether the curve defines a state at `tick`.
pub open spec fn reports<P>(curve: NamedCurveView<P>, tick: u64) -> bool {
    has_state_under(curve.curve.policy, curve.curve.keyframes, tick)
}

/// The test by which a snapshot at `tick` selects curves.
pub open spec fn reports_at<P>(tick: u64) -> spec_fn(NamedCurveView<P>) -> bool {
    |curve: NamedCurveView<P>| reports(curve, tick)
}

/// Whether `snapshot` is the snapshot of `curves` at `tick`: one entry for
/// each curve that defines a state at `tick`, in the order of the curves,
/// with the name of the curve and its state.
pub open spec fn is_snapshot<P: LinearKeyframe<P> + SteppedKeyframe<P> + PulseKeyframe<P>>(
    snapshot: Seq<(String, ErasedValue<P>)>,
    curves: Seq<NamedCurveView<P>>,
    tick: u64,
) -> bool {
    let reporting = curves.filter(reports_at(tick));
    &&& snapshot.len() == reporting.len()
    &&& forall|j: int|
        0 <= j < snapshot.len() ==> {
            &&& (#[trigger] snapshot[j]).0@ == reporting[j].name
            &&& is_dynamic_state(reporting[j].curve, tick, Some(snapshot[j].1))
        }
}

#[derive(Debug)]
struct NamedCurve<P: LinearKeyframe<P> + SteppedKeyframe<P> + PulseKeyframe<P>> {
    name: String,
    curve: DynamicCurve<P>,
}

/// The state of one object over time: when it was created and destroyed, and
/// a set of curves of mixed value types and policies, each registered under
/// a name of its own by the first keyframe added under that name.
///
/// A registration is permanent: the name keeps its declared value type and
/// policy for as long as the object state lives, also when all its keyframes
/// have been removed.
#[derive(Debug)]
pub struct ObjectState<P: LinearKeyframe<P> + SteppedKeyframe<P> + PulseKeyframe<P>> {
    created_tick: GameTick,
    destroyed_tick: Option<GameTick>,
    curves: Vec<NamedCurve<P>>,
}

/// The views of the entries.
spec fn views_of<P: LinearKeyframe<P> + SteppedKeyframe<P> + PulseKeyframe<P>>(
    curves: Seq<NamedCurve<P>>,
) -> Seq<NamedCurveView<P>> {
    Seq::new(
        curves.len(),
        |i: int| NamedCurveView { name: curves[i].name@, curve: curves[i].curve@ },
    )
}

impl<P: LinearKeyframe<P> + SteppedKeyframe<P> + PulseKeyframe<P>> View for ObjectState<P> {
    type V = ObjectStateView<P>;

    closed spec fn view(&self) -> ObjectStateView<P> {
        ObjectStateView {
            created_tick: self.created_tick,
            destroyed_tick: self.destroyed_tick,
            curves: views_of(self.curves@),
        }
    }
}

/// With unique names, the curve found under a name is the one that
/// [`position`] names.
pub proof fn lemma_position<P>(curves: Seq<NamedCurveView<P>>, name: Seq<char>, i: int)
    requires
        names_unique(curves),
        is_registered_at(curves, name, i),
    ensures
        position(curves, name) == Some(i),
{
    let chosen = choose|c: int| is_registered_at(curves, name, c);
    assert(is_registered_at(curves, name, chosen));
    if chosen < i {
        assert(curves[chosen].name != curves[i].name);
    } else if i < chosen {
        assert(curves[i].name != curves[chosen].name);
    }
}

impl<P: LinearKeyframe<P> + SteppedKeyframe<P> + PulseKeyframe<P>> ObjectState<P> {
    #[verifier::type_invariant]
    spec fn well_formed(&self) -> bool {
        names_unique(views_of(self.curves@))
    }

    /// The state of an object created at `created_tick`, with no curves yet.
    pub fn new(created_tick: GameTick) -> (state: ObjectState<P>)
        ensures
            state@ == (ObjectStateView {
                created_tick,
                destroyed_tick: None,
                curves: Seq::<NamedCurveView<P>>::empty(),
            }),
            names_unique(state@.curves),
    {
        let state = ObjectState { created_tick, destroyed_tick: None, curves: Vec::new() };
        assert(views_of(state.curves@) =~= Seq::<NamedCurveView<P>>::empty());
        state
    }

    /// Where the curve registered as `curve_name` stands, if there is one.
    fn find(&self, curve_name: &str) -> (found: Option<usize>)
        ensures
            match found {
                Some(i) => position(self@.curves, curve_name@) == Some(i as int) && i
                    < self.curves.len(),
                None => position(self@.curves, curve_name@) is None,
            },
    {
        proof {
            use_type_invariant(self);
        }
        let wanted = curve_name.to_owned();
        let mut i: usize = 0;
        while i < self.curves.len()
            invariant
                i <= self.curves.len(),
                wanted@ == curve_name@,
                names_unique(views_of(self.curves@)),
                forall|j: int| 0 <= j < i ==> !is_registered_at(self@.curves, curve_name@, j),
            decreases self.curves.len() - i,
        {
            if self.curves[i].name == wanted {
                proof {
                    lemma_position(self@.curves, curve_name@, i as int);
                }
                return Some(i);
            }
            i += 1;
        }
        None
    }

    /// Adds a keyframe to the curve registered as `curve_name`. The first
    /// keyframe under a name registers it, with the type of `value` and with
    /// `policy_kind`. Under a registered name the keyframe is refused, and
    /// nothing changes, where `value` is of another type than the declared
    /// one (`TypeMismatch`) or `policy_kind` is not the declared policy
    /// (`PolicyMismatch`).
    pub fn add_keyframe(
        &mut self,
        curve_name: &str,
        tick: GameTick,
        policy_kind: PolicyKind,
        value: ErasedValue<P>,
    ) -> (outcome: Result<(), CurveError>)
        ensures
            outcome == add_outcome(old(self)@, curve_name@, policy_kind, value),
            final(self)@ == after_add(old(self)@, curve_name@, tick, policy_kind, value),
            names_unique(final(self)@.curves),
    {
        proof {
            use_type_invariant(&*self);
        }
        let found = self.find(curve_name);
        let mut curves = Vec::new();
        std::mem::swap(&mut curves, &mut self.curves);
        let ghost before = views_of(curves@);
        let outcome = match found {
            Some(i) => {
                let outcome = curves[i].curve.insert_keyframe(tick, policy_kind, value);
                assert(views_of(curves@) =~= before.update(
                    i as int,
                    NamedCurveView {
                        name: curve_name@,
                        curve: after_insert(before[i as int].curve, tick, policy_kind, value),
                    },
                ));
                assert(names_unique(views_of(curves@))) by {
                    assert(is_registered_at(before, curve_name@, i as int));
                    assert forall|a: int, b: int| 0 <= a < b < before.len() implies (
                    #[trigger] views_of(curves@)[a]).name != (#[trigger] views_of(
                        curves@,
                    )[b]).name by {
                        assert(before[a].name != before[b].name);
                    }
                }
                outcome
            },
            None => {
                let mut curve = DynamicCurve::new(value.type_identity().clone(), policy_kind);
                let _ = curve.insert_keyframe(tick, policy_kind, value);
                curves.push(NamedCurve { name: curve_name.to_owned(), curve });
                assert(views_of(curves@) =~= before.push(
                    registered(curve_name@, tick, policy_kind, value),
                ));
                assert(names_unique(views_of(curves@))) by {
                    assert forall|a: int, b: int| 0 <= a < b < before.len() + 1 implies (
                    #[trigger] views_of(curves@)[a]).name != (#[trigger] views_of(
                        curves@,
                    )[b]).name by {
                        if b < before.len() {
                            assert(before[a].name != before[b].name);
                        } else {
                            assert(!is_registered_at(before, curve_name@, a));
                        }
                    }
                }
                Ok(())
            },
        };
        self.curves = curves;
        outcome
    }

    /// Removes the keyframe at `tick` from the curve registered as
    /// `curve_name`. Nothing happens where the name is not registered or the
    /// tick holds no keyframe.
    pub fn remove_keyframe(&mut self, curve_name: &str, tick: GameTick)
        ensures
            final(self)@ == after_remove(old(self)@, curve_name@, tick),
            names_unique(final(self)@.curves),
    {
        proof {
            use_type_invariant(&*self);
        }
        match self.find(curve_name) {
            Some(i) => {
                let mut curves = Vec::new();
                std::mem::swap(&mut curves, &mut self.curves);
                let ghost before = views_of(curves@);
                curves[i].curve.remove_keyframe(tick);
                assert(views_of(curves@) =~= before.update(
                    i as int,
                    NamedCurveView {
                        name: curve_name@,
                        curve: DynamicCurveView {
                            keyframes: before[i as int].curve.keyframes.remove(tick),
                            ..before[i as int].curve
                        },
                    },
                ));
                assert(names_unique(views_of(curves@))) by {
                    assert(is_registered_at(before, curve_name@, i as int));
                    assert forall|a: int, b: int| 0 <= a < b < before.len() implies (
                    #[trigger] views_of(curves@)[a]).name != (#[trigger] views_of(
                        curves@,
                    )[b]).name by {
                        assert(before[a].name != before[b].name);
                    }
                }
                self.curves = curves;
            },
            None => {},
        }
    }

    /// The curve registered as `curve_name`, if there is one, with its whole
    /// interface for reading.
    pub fn get_curve(&self, curve_name: &str) -> (curve: Option<&DynamicCurve<P>>)
        ensures
            match position(self@.curves, curve_name@) {
                Some(i) => curve is Some && curve->0@ == self@.curves[i].curve,
                None => curve is None,
            },
    {
        match self.find(curve_name) {
            Some(i) => Some(&self.curves[i].curve),
            None => None,
        }
    }

    /// The keyframe that the curve registered as `curve_name` holds at
    /// `tick`: a clone of it, under the declared type. There is none where
    /// the name is not registered or the tick holds no keyframe, whatever
    /// state the curve defines at `tick`.
    pub fn get_keyframe_at(&self, curve_name: &str, tick: GameTick) -> (keyframe: Option<
        ErasedValue<P>,
    >)
        ensures
            match keyframe_key(self@, curve_name@, tick) {
                Some(i) => {
                    &&& keyframe is Some
                    &&& keyframe->0.type_path() == self@.curves[i].curve.value_type
                    &&& cloned(self@.curves[i].curve.keyframes[tick], keyframe->0.payload())
                },
                None => keyframe is None,
            },
    {
        match self.find(curve_name) {
            Some(i) => self.curves[i].curve.get_keyframe(tick),
            None => None,
        }
    }

    /// The snapshot of the object at `tick`: for each curve that defines a
    /// state at `tick`, in the order of registration, the name of the curve
    /// and that state. A curve without a state at `tick` is left out.
    pub fn get_object_state(&self, tick: GameTick) -> (snapshot: Vec<(String, ErasedValue<P>)>)
        ensures
            is_snapshot(snapshot@, self@.curves, tick),
    {
        let mut snapshot: Vec<(String, ErasedValue<P>)> = Vec::new();
        let mut i: usize = 0;
        proof {
            reveal_with_fuel(Seq::filter, 2);
            assert(self@.curves.take(0).filter(reports_at(tick)).len() == 0);
        }
        while i < self.curves.len()
            invariant
                i <= self.curves.len(),
                is_snapshot(snapshot@, self@.curves.take(i as int), tick),
            decreases self.curves.len() - i,
        {
            let entry = &self.curves[i];
            let state = entry.curve.get_state(tick);
            let ghost payload = payload_of(state);
            proof {
                let seen = self@.curves.take(i as int);
                let next = self@.curves.take(i + 1);
                let current = self@.curves[i as int];
                reveal_with_fuel(Seq::filter, 2);
                assert(next.drop_last() =~= seen);
                assert(next.last() == current);
                lemma_state_where_defined(
                    current.curve.policy,
                    current.curve.keyframes,
                    tick,
                    payload,
                );
            }
            match state {
                Some(value) => {
                    snapshot.push((entry.name.clone(), value));
                },
                None => {},
            }
            i += 1;
        }
        assert(self@.curves.take(i as int) =~= self@.curves);
        snapshot
    }

    /// The names of the registered curves, in the order of registration. No
    /// name occurs twice.
    pub fn curve_names(&self) -> (names: Vec<String>)
        ensures
            names@.len() == self@.curves.len(),
            forall|i: int|
                0 <= i < names@.len() ==> (#[trigger] names@[i])@ == self@.curves[i].name,
            names_unique(self@.curves),
    {
        proof {
            use_type_invariant(self);
        }
        let mut names: Vec<String> = Vec::new();
        let mut i: usize = 0;
        while i < self.curves.len()
            invariant
                i <= self.curves.len(),
                names@.len() == i,
                forall|j: int| 0 <= j < i ==> (#[trigger] names@[j])@ == self@.curves[j].name,
            decreases self.curves.len() - i,
        {
            names.push(self.curves[i].name.clone());
            i += 1;
        }
        names
    }

    /// The tick at which the object was created.
    pub fn created_tick(&self) -> (tick: GameTick)
        ensures
            tick == self@.created_tick,
    {
        self.created_tick
    }

    /// The tick at which the object was destroyed, if it was.
    pub fn destroyed_tick(&self) -> (tick: Option<GameTick>)
        ensures
            tick == self@.destroyed_tick,
    {
        self.destroyed_tick
    }

    /// Records that the object was destroyed at `tick`. The curves stay, and
    /// answer queries at any tick as before.
    pub fn mark_destroyed(&mut self, tick: GameTick)
        ensures
            final(self)@ == (ObjectStateView { destroyed_tick: Some(tick), ..old(self)@ }),
    {
        proof {
            use_type_invariant(&*self);
        }
        self.destroyed_tick = Some(tick);
    }
}

} // verus!
