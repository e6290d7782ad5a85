//! The items that a user of the curves needs most.
pub use crate::curves::CurveTrait;
pub use crate::dynamic::{DynamicCurve, PolicyKind};
pub use crate::erased::{CurveError, ErasedValue, TypeIdentity};
pub use crate::keyframe_trait::{BlendRatio, LinearKeyframe, PulseKeyframe, SteppedKeyframe};
pub use crate::linear::LinearCurve;
pub use crate::object_state::ObjectState;
pub use crate::pulse::PulseCurve;
pub use crate::stepped::SteppedCurve;
pub use crate::GameTick;
