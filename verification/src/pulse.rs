//! The pulse curve: state exists only on the tick of a keyframe.
use crate::curves::{Curve, CurveTrait};
use crate::keyframe_trait::PulseKeyframe;
use crate::ordered::lemma_last_within_says;
use crate::GameTick;
use std::ops::Bound;
use vstd::prelude::*;

verus! {

/// The tick whose keyframe is the state of a pulse curve at `tick`: `tick`
/// itself where it holds a keyframe, and none elsewhere.
pub open spec fn pulse_key<T>(m: Map<u64, T>, tick: u64) -> Option<u64> {
    if m.contains_key(tick) {
        Some(tick)
    } else {
        None
    }
}

/// Whether `state` is the state of a pulse curve with keyframes `m` at
/// `tick`: a clone of the keyframe on `tick`, and none elsewhere.
pub open spec fn is_pulse_state<T: Clone>(m: Map<u64, T>, tick: u64, state: Option<T>) -> bool {
    match pulse_key(m, tick) {
        Some(k) => state is Some && cloned(m[k], state->0),
        None => state is None,
    }
}

/// A pulse curve of keyframes that implement [`PulseKeyframe`].
///
/// State in a pulse curve is instantaneous: it exists only on the
/// [`GameTick`] that a keyframe was saved under.
#[derive(Debug)]
pub struct PulseCurve<T: PulseKeyframe<T>> {
    curve: Curve<T>,
}

impl<T: PulseKeyframe<T>> View for PulseCurve<T> {
    type V = Map<u64, T>;

    closed spec fn view(&self) -> Map<u64, T> {
        self.curve@
    }
}

impl<T: PulseKeyframe<T>> CurveTrait<T> for PulseCurve<T> {
    fn new() -> (curve: PulseCurve<T>) {
        PulseCurve { curve: Curve::new() }
    }

    fn insert_keyframe(&mut self, tick: GameTick, keyframe: T) {
        self.curve.insert_keyframe(tick, keyframe);
    }

    fn remove_keyframe(&mut self, tick: GameTick) {
        self.curve.remove_keyframe(tick);
    }

    fn get_keyframe(&self, tick: GameTick) -> (keyframe: Option<&T>) {
        self.curve.get_keyframe(tick)
    }

    fn get_keyframe_mut(&mut self, tick: GameTick) -> (keyframe: Option<&mut T>) {
        self.curve.get_keyframe_mut(tick)
    }

    fn iter_future_curves(&self, tick: GameTick) -> (frames: Vec<(&GameTick, &T)>) {
        self.curve.iter_future_curves(tick)
    }

    fn next_keyframe(&self, tick: GameTick) -> (frame: Option<(&GameTick, &T)>) {
        self.curve.next_keyframe(tick)
    }

    fn next_keyframe_after(&self, tick: GameTick) -> (frame: Option<(&GameTick, &T)>) {
        self.curve.next_keyframe_after(tick)
    }

    fn iter_prev_curves(&self, tick: GameTick) -> (frames: Vec<(&GameTick, &T)>) {
        self.curve.iter_prev_curves(tick)
    }

    fn prev_keyframe(&self, tick: GameTick) -> (frame: Option<(&GameTick, &T)>) {
        self.curve.prev_keyframe(tick)
    }

    fn prev_keyframe_before(&self, tick: GameTick) -> (frame: Option<(&GameTick, &T)>) {
        self.curve.prev_keyframe_before(tick)
    }

    /// A clone of the keyframe at `tick`, and nothing where `tick` holds
    /// none.
    fn get_state(&self, tick: GameTick) -> (state: Option<T>)
        ensures
            is_pulse_state(self@, tick, state),
    {
        proof {
            lemma_last_within_says(self@, Bound::Unbounded, Bound::Included(tick));
        }
        match self.curve.get_keyframe(tick) {
            Some(frame) => Some(frame.clone()),
            None => None,
        }
    }

    fn iter_future_curves_mut(&mut self, tick: GameTick) -> (frames: Vec<(&GameTick, &mut T)>) {
        self.curve.iter_future_curves_mut(tick)
    }

    fn next_keyframe_mut(&mut self, tick: GameTick) -> (frame: Option<(&GameTick, &mut T)>) {
        self.curve.next_keyframe_mut(tick)
    }

    fn iter_prev_curves_mut(&mut self, tick: GameTick) -> (frames: Vec<(&GameTick, &mut T)>) {
        self.curve.iter_prev_curves_mut(tick)
    }

    fn prev_keyframe_mut(&mut self, tick: GameTick) -> (frame: Option<(&GameTick, &mut T)>) {
        self.curve.prev_keyframe_mut(tick)
    }

    fn remove_future_keyframes(&mut self, tick: &GameTick) {
        self.curve.remove_future_keyframes(tick);
    }

    fn remove_past_keyframes(&mut self, tick: &GameTick) {
        self.curve.remove_past_keyframes(tick);
    }
}

impl<T: PulseKeyframe<T>> PulseCurve<T> {
    /// A pulse curve over the keyframes of `curve`.
    pub fn from_curve(curve: Curve<T>) -> (made: PulseCurve<T>)
        ensures
            made@ == curve@,
    {
        PulseCurve { curve }
    }

    /// The keyframes, as the store that held them.
    pub fn into_curve(self) -> (curve: Curve<T>)
        ensures
            curve@ == self@,
    {
        self.curve
    }
}

} // verus!
