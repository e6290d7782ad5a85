//! The stepped curve: state holds from one keyframe until the next.
use crate::curves::{lemma_key_at_keyframe, prev_key, Curve, CurveTrait};
use crate::keyframe_trait::SteppedKeyframe;
use crate::GameTick;
use vstd::prelude::*;

verus! {

/// The tick whose keyframe is the state of a stepped curve at `tick`: the
/// latest one on or before `tick`.
pub open spec fn stepped_key<T>(m: Map<u64, T>, tick: u64) -> Option<u64> {
    prev_key(m, tick)
}

/// Whether `state` is the state of a stepped curve with keyframes `m` at
/// `tick`: a clone of the latest keyframe on or before `tick`, and none
/// where there is no such keyframe.
pub open spec fn is_stepped_state<T: Clone>(m: Map<u64, T>, tick: u64, state: Option<T>) -> bool {
    match stepped_key(m, tick) {
        Some(k) => state is Some && cloned(m[k], state->0),
        None => state is None,
    }
}

/// A stepped curve of keyframes that implement [`SteppedKeyframe`].
///
/// State in a stepped curve is not interpolated. Every tick from a keyframe
/// on has the state of that keyframe, until the tick of the next keyframe.
#[derive(Debug)]
pub struct SteppedCurve<T: SteppedKeyframe<T>> {
    curve: Curve<T>,
}

impl<T: SteppedKeyframe<T>> View for SteppedCurve<T> {
    type V = Map<u64, T>;

    closed spec fn view(&self) -> Map<u64, T> {
        self.curve@
    }
}

impl<T: SteppedKeyframe<T>> CurveTrait<T> for SteppedCurve<T> {
    fn new() -> (curve: SteppedCurve<T>) {
        SteppedCurve { curve: Curve::new() }
    }

    fn insert_keyframe(&mut self, tick: GameTick, keyframe: T) {
        self.curve.insert_keyframe(tick, keyframe);
    }

    fn remove_keyframe(&mut self, tick: GameTick) {
        self.curve.remove_keyframe(tick);
    }

    fn get_keyframe(&self, tick: GameTick) -> (keyframe: Option<&T>) {
        self.curve.get_keyframe(tick)
    }

    fn get_keyframe_mut(&mut self, tick: GameTick) -> (keyframe: Option<&mut T>) {
        self.curve.get_keyframe_mut(tick)
    }

    fn iter_future_curves(&self, tick: GameTick) -> (frames: Vec<(&GameTick, &T)>) {
        self.curve.iter_future_curves(tick)
    }

    fn next_keyframe(&self, tick: GameTick) -> (frame: Option<(&GameTick, &T)>) {
        self.curve.next_keyframe(tick)
    }

    fn next_keyframe_after(&self, tick: GameTick) -> (frame: Option<(&GameTick, &T)>) {
        self.curve.next_keyframe_after(tick)
    }

    fn iter_prev_curves(&self, tick: GameTick) -> (frames: Vec<(&GameTick, &T)>) {
        self.curve.iter_prev_curves(tick)
    }

    fn prev_keyframe(&self, tick: GameTick) -> (frame: Option<(&GameTick, &T)>) {
        self.curve.prev_keyframe(tick)
    }

    fn prev_keyframe_before(&self, tick: GameTick) -> (frame: Option<(&GameTick, &T)>) {
        self.curve.prev_keyframe_before(tick)
    }

    /// A clone of the latest keyframe on or before `tick`, and nothing where
    /// there is no such keyframe.
    fn get_state(&self, tick: GameTick) -> (state: Option<T>)
        ensures
            is_stepped_state(self@, tick, state),
    {
        proof {
            lemma_key_at_keyframe(self@, tick);
        }
        match self.curve.get_keyframe(tick) {
            Some(frame) => Some(frame.clone()),
            None => match self.curve.prev_keyframe(tick) {
                Some(frame) => Some(frame.1.clone()),
                None => None,
            },
        }
    }

    fn iter_future_curves_mut(&mut self, tick: GameTick) -> (frames: Vec<(&GameTick, &mut T)>) {
        self.curve.iter_future_curves_mut(tick)
    }

    fn next_keyframe_mut(&mut self, tick: GameTick) -> (frame: Option<(&GameTick, &mut T)>) {
        self.curve.next_keyframe_mut(tick)
    }

    fn iter_prev_curves_mut(&mut self, tick: GameTick) -> (frames: Vec<(&GameTick, &mut T)>) {
        self.curve.iter_prev_curves_mut(tick)
    }

    fn prev_keyframe_mut(&mut self, tick: GameTick) -> (frame: Option<(&GameTick, &mut T)>) {
        self.curve.prev_keyframe_mut(tick)
    }

    fn remove_future_keyframes(&mut self, tick: &GameTick) {
        self.curve.remove_future_keyframes(tick);
    }

    fn remove_past_keyframes(&mut self, tick: &GameTick) {
        self.curve.remove_past_keyframes(tick);
    }
}

impl<T: SteppedKeyframe<T>> SteppedCurve<T> {
    /// A stepped curve over the keyframes of `curve`.
    pub fn from_curve(curve: Curve<T>) -> (made: SteppedCurve<T>)
        ensures
            made@ == curve@,
    {
        SteppedCurve { curve }
    }

    /// The keyframes, as the store that held them.
    pub fn into_curve(self) -> (curve: Curve<T>)
        ensures
            curve@ == self@,
    {
        self.curve
    }
}

} // verus!
