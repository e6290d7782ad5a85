//! The linear curve: state is blended between the keyframes around a tick.
use crate::curves::{next_key_after, prev_key_before, Curve, CurveTrait};
use crate::keyframe_trait::{BlendRatio, LinearKeyframe};
use crate::ordered::{lemma_first_within_says, lemma_last_within_says};
use crate::GameTick;
use std::ops::Bound;
use vstd::prelude::*;

verus! {

/// Where a tick lies among the keyframes of a linear curve.
#[derive(Clone, Copy, Debug, PartialEq, Eq, Structural)]
pub enum LinearSegment {
    /// No keyframe lies on or before the tick: no state is defined.
    Undefined,
    /// The tick holds a keyframe, which is the state as it stands.
    Exact,
    /// The tick lies after the last keyframe, which is at `at` and whose
    /// state holds.
    Hold { at: u64 },
    /// The tick lies strictly between the keyframes at `prev` and at `next`,
    /// with no keyframe between those two.
    Blend { prev: u64, next: u64 },
}

/// Where `tick` lies among the keyframes of `m`.
pub open spec fn linear_segment<T>(m: Map<u64, T>, tick: u64) -> LinearSegment {
    if m.contains_key(tick) {
        LinearSegment::Exact
    } else {
        match (prev_key_before(m, tick), next_key_after(m, tick)) {
            (None, _) => LinearSegment::Undefined,
            (Some(prev), None) => LinearSegment::Hold { at: prev },
            (Some(prev), Some(next)) => LinearSegment::Blend { prev, next },
        }
    }
}

/// How far `tick` lies from the keyframe at `prev` towards the one at `next`.
pub open spec fn blend_ratio(prev: u64, tick: u64, next: u64) -> BlendRatio {
    BlendRatio { elapsed: (tick - prev) as u64, span: (next - prev) as u64 }
}

/// Whether `state` is the state of a linear curve with keyframes `m` at
/// `tick`. Before the first keyframe there is none. On a keyframe it is a
/// clone of that keyframe, and after the last keyframe a clone of the last.
/// Between two keyframes it is what `lerp` returned for the earlier one, the
/// later one and the ratio of the ticks elapsed to the ticks between them.
pub open spec fn is_linear_state<T: LinearKeyframe<T>>(
    m: Map<u64, T>,
    tick: u64,
    state: Option<T>,
) -> bool {
    match linear_segment(m, tick) {
        LinearSegment::Undefined => state is None,
        LinearSegment::Exact => state is Some && cloned(m[tick], state->0),
        LinearSegment::Hold { at } => state is Some && cloned(m[at], state->0),
        LinearSegment::Blend { prev, next } => {
            &&& state is Some
            &&& call_ensures(T::lerp, (&m[prev], &m[next], blend_ratio(prev, tick, next)), state->0)
        },
    }
}

/// A linear curve of keyframes that implement [`LinearKeyframe`].
///
/// State in a linear curve is blended between the keyframe before a tick and
/// the keyframe after it.
///
/// - A tick that holds a keyframe has that keyframe as its state.
/// - After the last keyframe, the state of the last keyframe holds.
/// - Before the first keyframe there is no state.
/// - Elsewhere the state is what [`LinearKeyframe::lerp`] makes of the two
///   keyframes around the tick.
#[derive(Debug)]
pub struct LinearCurve<T: LinearKeyframe<T>> {
    curve: Curve<T>,
}

impl<T: LinearKeyframe<T>> View for LinearCurve<T> {
    type V = Map<u64, T>;

    closed spec fn view(&self) -> Map<u64, T> {
        self.curve@
    }
}

impl<T: LinearKeyframe<T>> CurveTrait<T> for LinearCurve<T> {
    fn new() -> (curve: LinearCurve<T>) {
        LinearCurve { curve: Curve::new() }
    }

    fn insert_keyframe(&mut self, tick: GameTick, keyframe: T) {
        self.curve.insert_keyframe(tick, keyframe);
    }

    fn remove_keyframe(&mut self, tick: GameTick) {
        self.curve.remove_keyframe(tick);
    }

    fn get_keyframe(&self, tick: GameTick) -> (keyframe: Option<&T>) {
        self.curve.get_keyframe(tick)
    }

    fn get_keyframe_mut(&mut self, tick: GameTick) -> (keyframe: Option<&mut T>) {
        self.curve.get_keyframe_mut(tick)
    }

    fn iter_future_curves(&self, tick: GameTick) -> (frames: Vec<(&GameTick, &T)>) {
        self.curve.iter_future_curves(tick)
    }

    fn next_keyframe(&self, tick: GameTick) -> (frame: Option<(&GameTick, &T)>) {
        self.curve.next_keyframe(tick)
    }

    fn next_keyframe_after(&self, tick: GameTick) -> (frame: Option<(&GameTick, &T)>) {
        self.curve.next_keyframe_after(tick)
    }

    fn iter_prev_curves(&self, tick: GameTick) -> (frames: Vec<(&GameTick, &T)>) {
        self.curve.iter_prev_curves(tick)
    }

    fn prev_keyframe(&self, tick: GameTick) -> (frame: Option<(&GameTick, &T)>) {
        self.curve.prev_keyframe(tick)
    }

    fn prev_keyframe_before(&self, tick: GameTick) -> (frame: Option<(&GameTick, &T)>) {
        self.curve.prev_keyframe_before(tick)
    }

    /// The state at `tick`, by where `tick` lies among the keyframes: a
    /// clone of the keyframe on it or of the last keyframe before it, or, in
    /// between two keyframes, what `lerp` returns for them and the ratio of
    /// the ticks elapsed since the earlier one to the ticks between the two.
    fn get_state(&self, tick: GameTick) -> (state: Option<T>)
        ensures
            is_linear_state(self@, tick, state),
    {
        proof {
            lemma_last_within_says(self@, Bound::Unbounded, Bound::Included(tick));
            lemma_last_within_says(self@, Bound::Unbounded, Bound::Excluded(tick));
            lemma_first_within_says(self@, Bound::Excluded(tick), Bound::Unbounded);
        }
        if let Some(frame) = self.curve.get_keyframe(tick) {
            return Some(frame.clone());
        }
        let prev_frame = match self.curve.prev_keyframe_before(tick) {
            Some(frame) => frame,
            None => {
                return None;
            },
        };
        let next_frame = match self.curve.next_keyframe_after(tick) {
            Some(frame) => frame,
            None => {
                return Some(prev_frame.1.clone());
            },
        };
        let ratio = BlendRatio {
            elapsed: tick - *prev_frame.0,
            span: *next_frame.0 - *prev_frame.0,
        };
        Some(prev_frame.1.lerp(next_frame.1, ratio))
    }

    fn iter_future_curves_mut(&mut self, tick: GameTick) -> (frames: Vec<(&GameTick, &mut T)>) {
        self.curve.iter_future_curves_mut(tick)
    }

    fn next_keyframe_mut(&mut self, tick: GameTick) -> (frame: Option<(&GameTick, &mut T)>) {
        self.curve.next_keyframe_mut(tick)
    }

    fn iter_prev_curves_mut(&mut self, tick: GameTick) -> (frames: Vec<(&GameTick, &mut T)>) {
        self.curve.iter_prev_curves_mut(tick)
    }

    fn prev_keyframe_mut(&mut self, tick: GameTick) -> (frame: Option<(&GameTick, &mut T)>) {
        self.curve.prev_keyframe_mut(tick)
    }

    fn remove_future_keyframes(&mut self, tick: &GameTick) {
        self.curve.remove_future_keyframes(tick);
    }

    fn remove_past_keyframes(&mut self, tick: &GameTick) {
        self.curve.remove_past_keyframes(tick);
    }
}

impl<T: LinearKeyframe<T>> LinearCurve<T> {
    /// Where `tick` lies among the keyframes: which of the four kinds of
    /// state the curve has there, and between or after which keyframes.
    pub fn segment(&self, tick: GameTick) -> (segment: LinearSegment)
        ensures
            segment == linear_segment(self@, tick),
    {
        if self.curve.get_keyframe(tick).is_some() {
            return LinearSegment::Exact;
        }
        match self.curve.prev_keyframe_before(tick) {
            None => LinearSegment::Undefined,
            Some(prev_frame) => match self.curve.next_keyframe_after(tick) {
                None => LinearSegment::Hold { at: *prev_frame.0 },
                Some(next_frame) => LinearSegment::Blend {
                    prev: *prev_frame.0,
                    next: *next_frame.0,
                },
            },
        }
    }

    /// A linear curve over the keyframes of `curve`.
    pub fn from_curve(curve: Curve<T>) -> (made: LinearCurve<T>)
        ensures
            made@ == curve@,
    {
        LinearCurve { curve }
    }

    /// The keyframes, as the store that held them.
    pub fn into_curve(self) -> (curve: Curve<T>)
        ensures
            curve@ == self@,
    {
        self.curve
    }
}

} // verus!
