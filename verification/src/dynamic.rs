//! A curve whose value type and policy are declared at run time.
use crate::curves::CurveTrait;
use crate::erased::{CurveError, ErasedValue, TypeIdentity};
use crate::keyframe_trait::{LinearKeyframe, PulseKeyframe, SteppedKeyframe};
use crate::linear::{is_linear_state, linear_segment, LinearCurve, LinearSegment};
use crate::pulse::{is_pulse_state, pulse_key, PulseCurve};
use crate::stepped::{is_stepped_state, stepped_key, SteppedCurve};
use crate::GameTick;
use vstd::prelude::*;
use vstd::string::StringExecFns;

verus! {

/// The three ways in which a curve derives state from its keyframes.
#[derive(Clone, Copy, Debug, PartialEq, Eq, Structural)]
pub enum PolicyKind {
    /// State is blended between the keyframes around a tick.
    Linear,
    /// State holds from one keyframe until the next.
    Stepped,
    /// State exists only on the tick of a keyframe.
    Pulse,
}

/// The keyframes of a dynamic curve, held in the curve type of its policy.
#[derive(Debug)]
pub enum PolicyCurve<P: LinearKeyframe<P> + SteppedKeyframe<P> + PulseKeyframe<P>> {
    /// Keyframes that state is blended between.
    Linear(LinearCurve<P>),
    /// Keyframes that hold until the next one.
    Stepped(SteppedCurve<P>),
    /// Keyframes that are state on their own tick only.
    Pulse(PulseCurve<P>),
}

impl<P: LinearKeyframe<P> + SteppedKeyframe<P> + PulseKeyframe<P>> PolicyCurve<P> {
    /// The policy that the keyframes are held under.
    pub open spec fn policy(&self) -> PolicyKind {
        match self {
            PolicyCurve::Linear(_) => PolicyKind::Linear,
            PolicyCurve::Stepped(_) => PolicyKind::Stepped,
            PolicyCurve::Pulse(_) => PolicyKind::Pulse,
        }
    }

    /// The keyframes, by tick.
    pub open spec fn keyframes(&self) -> Map<u64, P> {
        match self {
            PolicyCurve::Linear(curve) => curve@,
            PolicyCurve::Stepped(curve) => curve@,
            PolicyCurve::Pulse(curve) => curve@,
        }
    }

    /// An empty curve of the given policy.
    pub fn new(policy_kind: PolicyKind) -> (curve: PolicyCurve<P>)
        ensures
            curve.policy() == policy_kind,
            curve.keyframes() == Map::<u64, P>::empty(),
    {
        match policy_kind {
            PolicyKind::Linear => PolicyCurve::Linear(LinearCurve::new()),
            PolicyKind::Stepped => PolicyCurve::Stepped(SteppedCurve::new()),
            PolicyKind::Pulse => PolicyCurve::Pulse(PulseCurve::new()),
        }
    }

    /// The policy that the keyframes are held under.
    pub fn policy_kind(&self) -> (policy_kind: PolicyKind)
        ensures
            policy_kind == self.policy(),
    {
        match self {
            PolicyCurve::Linear(_) => PolicyKind::Linear,
            PolicyCurve::Stepped(_) => PolicyKind::Stepped,
            PolicyCurve::Pulse(_) => PolicyKind::Pulse,
        }
    }

    /// Stores `keyframe` at `tick`, in place of a keyframe that was there.
    pub fn insert_keyframe(&mut self, tick: GameTick, keyframe: P)
        ensures
            final(self).policy() == old(self).policy(),
            final(self).keyframes() == old(self).keyframes().insert(tick, keyframe),
    {
        match self {
            PolicyCurve::Linear(curve) => curve.insert_keyframe(tick, keyframe),
            PolicyCurve::Stepped(curve) => curve.insert_keyframe(tick, keyframe),
            PolicyCurve::Pulse(curve) => curve.insert_keyframe(tick, keyframe),
        }
    }

    /// Removes the keyframe at `tick` if there is one.
    pub fn remove_keyframe(&mut self, tick: GameTick)
        ensures
            final(self).policy() == old(self).policy(),
            final(self).keyframes() == old(self).keyframes().remove(tick),
    {
        match self {
            PolicyCurve::Linear(curve) => curve.remove_keyframe(tick),
            PolicyCurve::Stepped(curve) => curve.remove_keyframe(tick),
            PolicyCurve::Pulse(curve) => curve.remove_keyframe(tick),
        }
    }

    /// The keyframe at `tick` if there is one.
    pub fn get_keyframe(&self, tick: GameTick) -> (keyframe: Option<&P>)
        ensures
            match keyframe {
                Some(value) => self.keyframes().contains_key(tick) && *value
                    == self.keyframes()[tick],
                None => !self.keyframes().contains_key(tick),
            },
    {
        match self {
            PolicyCurve::Linear(curve) => curve.get_keyframe(tick),
            PolicyCurve::Stepped(curve) => curve.get_keyframe(tick),
            PolicyCurve::Pulse(curve) => curve.get_keyframe(tick),
        }
    }

    /// The state at `tick`, as the policy of the curve defines it.
    pub fn get_state(&self, tick: GameTick) -> (state: Option<P>)
        ensures
            is_state_under(self.policy(), self.keyframes(), tick, state),
    {
        match self {
            PolicyCurve::Linear(curve) => curve.get_state(tick),
            PolicyCurve::Stepped(curve) => curve.get_state(tick),
            PolicyCurve::Pulse(curve) => curve.get_state(tick),
        }
    }
}

/// Whether `state` is the state at `tick` of a curve of the given policy
/// with keyframes `m`.
pub open spec fn is_state_under<P: LinearKeyframe<P> + SteppedKeyframe<P> + PulseKeyframe<P>>(
    policy: PolicyKind,
    m: Map<u64, P>,
    tick: u64,
    state: Option<P>,
) -> bool {
    match policy {
        PolicyKind::Linear => is_linear_state(m, tick, state),
        PolicyKind::Stepped => is_stepped_state(m, tick, state),
        PolicyKind::Pulse => is_pulse_state(m, tick, state),
    }
}

/// Whether a curve of the given policy with keyframes `m` defines a state at
/// `tick`.
pub open spec fn has_state_under<P>(policy: PolicyKind, m: Map<u64, P>, tick: u64) -> bool {
    match policy {
        PolicyKind::Linear => linear_segment(m, tick) != LinearSegment::Undefined,
        PolicyKind::Stepped => stepped_key(m, tick) is Some,
        PolicyKind::Pulse => pulse_key(m, tick) is Some,
    }
}

/// A state is handed out exactly where the policy defines one.
pub proof fn lemma_state_where_defined<
    P: LinearKeyframe<P> + SteppedKeyframe<P> + PulseKeyframe<P>,
>(policy: PolicyKind, m: Map<u64, P>, tick: u64, state: Option<P>)
    requires
        is_state_under(policy, m, tick, state),
    ensures
        state is Some <==> has_state_under(policy, m, tick),
{
}

/// How the type path of a curve of the given policy begins: with the name
/// of the curve type of that policy, and the bracket that opens its value
/// type.
pub open spec fn curve_type_prefix(policy: PolicyKind) -> Seq<char> {
    match policy {
        PolicyKind::Linear => "LinearCurve<"@,
        PolicyKind::Stepped => "SteppedCurve<"@,
        PolicyKind::Pulse => "PulseCurve<"@,
    }
}

/// The type path of a curve of the given policy over values of the type
/// with path `value_type`: the curve type, with the value type in angle
/// brackets.
pub open spec fn curve_type_path(policy: PolicyKind, value_type: Seq<char>) -> Seq<char> {
    curve_type_prefix(policy) + value_type + ">"@
}

/// What a dynamic curve is: the declared type of its values, its declared
/// policy, and its keyframes by tick.
pub struct DynamicCurveView<P> {
    pub value_type: Seq<char>,
    pub policy: PolicyKind,
    pub keyframes: Map<u64, P>,
}

/// A curve that was registered with the identity of its value type and with
/// its policy. Neither changes afterwards. Values go in and out with their
/// type erased and are checked against the declared type on the way in.
#[derive(Debug)]
pub struct DynamicCurve<P: LinearKeyframe<P> + SteppedKeyframe<P> + PulseKeyframe<P>> {
    value_type: TypeIdentity,
    curve: PolicyCurve<P>,
}

impl<P: LinearKeyframe<P> + SteppedKeyframe<P> + PulseKeyframe<P>> View for DynamicCurve<P> {
    type V = DynamicCurveView<P>;

    closed spec fn view(&self) -> DynamicCurveView<P> {
        DynamicCurveView {
            value_type: self.value_type@,
            policy: self.curve.policy(),
            keyframes: self.curve.keyframes(),
        }
    }
}

/// What a state holds, if there is one.
pub open spec fn payload_of<P>(state: Option<ErasedValue<P>>) -> Option<P> {
    match state {
        Some(value) => Some(value.payload()),
        None => None,
    }
}

/// Whether `state` is the state of the dynamic curve `curve` at `tick`: what
/// it holds is the state that the policy defines, and it is of the declared
/// type.
pub open spec fn is_dynamic_state<P: LinearKeyframe<P> + SteppedKeyframe<P> + PulseKeyframe<P>>(
    curve: DynamicCurveView<P>,
    tick: u64,
    state: Option<ErasedValue<P>>,
) -> bool {
    &&& is_state_under(curve.policy, curve.keyframes, tick, payload_of(state))
    &&& state matches Some(value) ==> value.type_path() == curve.value_type
}

/// What adding `value` under `policy_kind` to `curve` returns: an error of
/// the type where the value is not of the declared type, else an error of
/// the policy where that is not the declared one.
pub open spec fn insert_outcome<P>(
    curve: DynamicCurveView<P>,
    policy_kind: PolicyKind,
    value: ErasedValue<P>,
) -> Result<(), CurveError> {
    if value.type_path() != curve.value_type {
        Err(CurveError::TypeMismatch)
    } else if policy_kind != curve.policy {
        Err(CurveError::PolicyMismatch)
    } else {
        Ok(())
    }
}

/// What `curve` is after `value` was added at `tick` under `policy_kind`:
/// unchanged where the addition was refused.
pub open spec fn after_insert<P>(
    curve: DynamicCurveView<P>,
    tick: u64,
    policy_kind: PolicyKind,
    value: ErasedValue<P>,
) -> DynamicCurveView<P> {
    if insert_outcome(curve, policy_kind, value) is Ok {
        DynamicCurveView { keyframes: curve.keyframes.insert(tick, value.payload()), ..curve }
    } else {
        curve
    }
}

impl<P: LinearKeyframe<P> + SteppedKeyframe<P> + PulseKeyframe<P>> DynamicCurve<P> {
    /// An empty curve for values of type `value_type` under `policy_kind`.
    pub fn new(value_type: TypeIdentity, policy_kind: PolicyKind) -> (curve: DynamicCurve<P>)
        ensures
            curve@ == (DynamicCurveView {
                value_type: value_type@,
                policy: policy_kind,
                keyframes: Map::<u64, P>::empty(),
            }),
    {
        DynamicCurve { value_type, curve: PolicyCurve::new(policy_kind) }
    }

    /// The identity of the declared value type.
    pub fn value_type(&self) -> (value_type: &TypeIdentity)
        ensures
            value_type@ == self@.value_type,
    {
        &self.value_type
    }

    /// The declared policy.
    pub fn policy_kind(&self) -> (policy_kind: PolicyKind)
        ensures
            policy_kind == self@.policy,
    {
        self.curve.policy_kind()
    }

    /// The type path of the curve: the curve type of the declared policy,
    /// with the path of the declared value type in angle brackets.
    pub fn type_path(&self) -> (path: String)
        ensures
            path@ == curve_type_path(self@.policy, self@.value_type),
    {
        let mut path = match self.curve.policy_kind() {
            PolicyKind::Linear => "LinearCurve<".to_owned(),
            PolicyKind::Stepped => "SteppedCurve<".to_owned(),
            PolicyKind::Pulse => "PulseCurve<".to_owned(),
        };
        path.append(self.value_type.type_path());
        path.append(">");
        path
    }

    /// The keyframes in the curve type of the policy, with the whole
    /// interface of that type for reading.
    pub fn typed(&self) -> (curve: &PolicyCurve<P>)
        ensures
            curve.policy() == self@.policy,
            curve.keyframes() == self@.keyframes,
    {
        &self.curve
    }

    /// Stores `value` at `tick`, in place of a keyframe that was there, if
    /// `value` is of the declared type and `policy_kind` is the declared
    /// policy. Otherwise the curve stays as it is, and the error says which
    /// of the two was wrong, the type first.
    pub fn insert_keyframe(
        &mut self,
        tick: GameTick,
        policy_kind: PolicyKind,
        value: ErasedValue<P>,
    ) -> (outcome: Result<(), CurveError>)
        ensures
            outcome == insert_outcome(old(self)@, policy_kind, value),
            final(self)@ == after_insert(old(self)@, tick, policy_kind, value),
    {
        match value.downcast_into(&self.value_type) {
            Err(error) => Err(error),
            Ok(payload) => {
                if policy_kind != self.curve.policy_kind() {
                    Err(CurveError::PolicyMismatch)
                } else {
                    self.curve.insert_keyframe(tick, payload);
                    Ok(())
                }
            },
        }
    }

    /// Removes the keyframe at `tick` if there is one. The declared type and
    /// policy stay.
    pub fn remove_keyframe(&mut self, tick: GameTick)
        ensures
            final(self)@ == (DynamicCurveView {
                keyframes: old(self)@.keyframes.remove(tick),
                ..old(self)@
            }),
    {
        self.curve.remove_keyframe(tick);
    }

    /// The keyframe at `tick` if there is one: a clone of it, under the
    /// declared type.
    pub fn get_keyframe(&self, tick: GameTick) -> (keyframe: Option<ErasedValue<P>>)
        ensures
            match keyframe {
                Some(value) => {
                    &&& self@.keyframes.contains_key(tick)
                    &&& value.type_path() == self@.value_type
                    &&& cloned(self@.keyframes[tick], value.payload())
                },
                None => !self@.keyframes.contains_key(tick),
            },
    {
        match self.curve.get_keyframe(tick) {
            Some(payload) => Some(ErasedValue::new(self.value_type.clone(), payload.clone())),
            None => None,
        }
    }

    /// The state at `tick` as the declared policy defines it, under the
    /// declared type.
    pub fn get_state(&self, tick: GameTick) -> (state: Option<ErasedValue<P>>)
        ensures
            is_dynamic_state(self@, tick, state),
    {
        match self.curve.get_state(tick) {
            Some(payload) => Some(ErasedValue::new(self.value_type.clone(), payload)),
            None => None,
        }
    }
}

} // verus!
