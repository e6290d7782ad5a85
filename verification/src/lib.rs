//! Timeline state curves: sparse keyframes keyed by a tick counter, and the
//! state they define at any tick under a linear, stepped or pulse policy.
//!
//! A simulation records a keyframe only when state changes; a consumer asks
//! for the state at any tick, past, present or ahead, and gets the same
//! answer for the same keyframes every time.
//!
//! - [`ordered`]: range queries on the ordered map that backs every curve.
//! - [`keyframe_trait`]: what a value type must offer to be stored in a curve.
//! - [`curves`]: the keyframe store, and the interface of every curve.
//! - [`linear`], [`stepped`], [`pulse`]: the three curve types.
//! - [`erased`], [`dynamic`], [`object_state`]: curves whose value type and
//!   policy are declared at run time, registered by name on one object.
//! - [`laws`]: what holds of the curves whatever they contain.
use vstd::prelude::*;

pub mod curves;
pub mod dynamic;
pub mod erased;
pub mod keyframe_trait;
pub mod laws;
pub mod linear;
pub mod object_state;
pub mod ordered;
pub mod prelude;
pub mod pulse;
pub mod stepped;

verus! {

/// The unit of time that keys every keyframe and every query. Lower is earlier.
pub type GameTick = u64;

} // verus!
