//! What a value type must offer to be stored in a curve.
use vstd::prelude::*;

verus! {

/// How far a tick lies between the keyframe before it and the keyframe
/// after it: `elapsed` ticks out of `span`. The ratio it stands for is
/// `elapsed / span`, taken in whatever number type the value blends in.
#[derive(Clone, Copy, Debug, PartialEq, Eq)]
pub struct BlendRatio {
    /// Ticks from the earlier keyframe to the tick asked for.
    pub elapsed: u64,
    /// Ticks from the earlier keyframe to the later one.
    pub span: u64,
}

impl BlendRatio {
    /// The ratio lies between 0 and 1, both included.
    pub open spec fn in_unit_interval(self) -> bool {
        0 < self.span && self.elapsed <= self.span
    }

    /// The ratio lies strictly between 0 and 1.
    pub open spec fn is_interior(self) -> bool {
        0 < self.elapsed < self.span
    }
}

/// Must be implemented for a type to be used in a
/// [`SteppedCurve`](crate::stepped::SteppedCurve).
pub trait SteppedKeyframe<T>: Clone {

}

/// Must be implemented for a type to be used in a
/// [`PulseCurve`](crate::pulse::PulseCurve).
pub trait PulseKeyframe<T>: Clone {

}

/// Must be implemented for a type to be used in a
/// [`LinearCurve`](crate::linear::LinearCurve).
pub trait LinearKeyframe<T>: Clone {
    /// Blends this keyframe with the one after it. A ratio of 0 is to give
    /// this keyframe and a ratio of 1 the next one; which fields are blended
    /// in between, and how, is left to the implementation.
    fn lerp(&self, next_frame_state: &T, ratio: BlendRatio) -> T
        requires
            ratio.in_unit_interval(),
    ;
}

} // verus!
