use bevy_state_curves::curves::CurveTrait;
use bevy_state_curves::dynamic::{DynamicCurve, PolicyCurve, PolicyKind};
use bevy_state_curves::erased::{CurveError, ErasedValue, TypeIdentity};
use bevy_state_curves::keyframe_trait::{
    BlendRatio, LinearKeyframe, PulseKeyframe, SteppedKeyframe,
};
use bevy_state_curves::object_state::ObjectState;

/// The payloads of the tests: values of two unrelated types.
#[derive(Clone, Debug, PartialEq)]
enum Payload {
    Angle(f64),
    Orbits(u32),
}

impl LinearKeyframe<Payload> for Payload {
    fn lerp(&self, next_frame_state: &Payload, ratio: BlendRatio) -> Payload {
        let ratio = ratio.elapsed as f64 / ratio.span as f64;
        match (self, next_frame_state) {
            (Payload::Angle(from), Payload::Angle(to)) => {
                Payload::Angle(from + (to - from) * ratio)
            }
            _ => self.clone(),
        }
    }
}

impl SteppedKeyframe<Payload> for Payload {}

impl PulseKeyframe<Payload> for Payload {}

fn angle_type() -> TypeIdentity {
    TypeIdentity::new("solar::BodyAngle")
}

fn orbits_type() -> TypeIdentity {
    TypeIdentity::new("solar::BodyOrbit")
}

fn angle(value: f64) -> ErasedValue<Payload> {
    ErasedValue::new(angle_type(), Payload::Angle(value))
}

fn orbits(value: u32) -> ErasedValue<Payload> {
    ErasedValue::new(orbits_type(), Payload::Orbits(value))
}

fn names(snapshot: &[(String, ErasedValue<Payload>)]) -> Vec<&str> {
    snapshot.iter().map(|(name, _)| name.as_str()).collect()
}

#[test]
fn test_type_path_equivilancy() {
    let of_angles = DynamicCurve::<Payload>::new(angle_type(), PolicyKind::Stepped);
    let of_orbits = DynamicCurve::<Payload>::new(orbits_type(), PolicyKind::Stepped);
    assert_ne!(of_angles.type_path(), of_orbits.type_path())
}

#[test]
fn type_path_names_the_curve_type_and_the_value_type() {
    let linear = DynamicCurve::<Payload>::new(angle_type(), PolicyKind::Linear);
    let stepped = DynamicCurve::<Payload>::new(angle_type(), PolicyKind::Stepped);
    let pulse = DynamicCurve::<Payload>::new(angle_type(), PolicyKind::Pulse);
    assert_eq!(linear.type_path(), "LinearCurve<solar::BodyAngle>");
    assert_eq!(stepped.type_path(), "SteppedCurve<solar::BodyAngle>");
    assert_eq!(pulse.type_path(), "PulseCurve<solar::BodyAngle>");
    assert_eq!(
        DynamicCurve::<Payload>::new(angle_type(), PolicyKind::Linear).type_path(),
        linear.type_path()
    );
}

#[test]
fn type_identity_is_its_path() {
    assert_eq!(angle_type().type_path(), "solar::BodyAngle");
    assert!(angle_type().same_type(&angle_type()));
    assert!(!angle_type().same_type(&orbits_type()));
    assert!(!TypeIdentity::new("").same_type(&angle_type()));
    assert!(angle_type().clone().same_type(&angle_type()));
}

#[test]
fn downcast_gives_the_payload_to_the_right_type_only() {
    let value = angle(1.5);
    assert!(value.type_identity().same_type(&angle_type()));
    assert_eq!(value.downcast(&angle_type()), Ok(&Payload::Angle(1.5)));
    assert_eq!(value.downcast(&orbits_type()), Err(CurveError::TypeMismatch));
    assert_eq!(value.clone().downcast_into(&orbits_type()), Err(CurveError::TypeMismatch));
    assert_eq!(value.clone().downcast_into(&angle_type()), Ok(Payload::Angle(1.5)));
    assert_eq!(value.clone(), value);
}

#[test]
fn the_first_keyframe_registers_a_curve() {
    let mut state = ObjectState::new(3);
    assert!(state.get_curve("angle").is_none());
    assert_eq!(state.add_keyframe("angle", 10, PolicyKind::Linear, angle(1.0)), Ok(()));
    let curve = state.get_curve("angle").expect("the curve is registered");
    assert!(curve.value_type().same_type(&angle_type()));
    assert_eq!(curve.policy_kind(), PolicyKind::Linear);
    assert_eq!(curve.get_keyframe(10), Some(angle(1.0)));
    assert_eq!(state.curve_names(), vec!["angle".to_string()]);
}

#[test]
fn a_value_of_another_type_is_refused_and_changes_nothing() {
    let mut state = ObjectState::new(0);
    assert_eq!(state.add_keyframe("X", 10, PolicyKind::Stepped, angle(1.0)), Ok(()));
    assert_eq!(
        state.add_keyframe("X", 20, PolicyKind::Stepped, orbits(2)),
        Err(CurveError::TypeMismatch)
    );
    assert_eq!(
        state.add_keyframe("X", 10, PolicyKind::Stepped, orbits(2)),
        Err(CurveError::TypeMismatch)
    );
    assert_eq!(state.get_keyframe_at("X", 20), None);
    assert_eq!(state.get_keyframe_at("X", 10), Some(angle(1.0)));
    let curve = state.get_curve("X").expect("the curve is registered");
    assert!(curve.value_type().same_type(&angle_type()));
    assert_eq!(curve.policy_kind(), PolicyKind::Stepped);
    match curve.typed() {
        PolicyCurve::Stepped(stepped) => {
            assert_eq!(stepped.iter_future_curves(0), vec![(&10, &Payload::Angle(1.0))]);
        }
        _ => panic!("the curve was registered as stepped"),
    }
    assert_eq!(state.curve_names(), vec!["X".to_string()]);
}

#[test]
fn a_keyframe_under_another_policy_is_refused_and_changes_nothing() {
    let mut state = ObjectState::new(0);
    assert_eq!(state.add_keyframe("X", 10, PolicyKind::Stepped, angle(1.0)), Ok(()));
    assert_eq!(
        state.add_keyframe("X", 20, PolicyKind::Linear, angle(2.0)),
        Err(CurveError::PolicyMismatch)
    );
    assert_eq!(
        state.add_keyframe("X", 20, PolicyKind::Pulse, angle(2.0)),
        Err(CurveError::PolicyMismatch)
    );
    assert_eq!(state.get_keyframe_at("X", 20), None);
    assert_eq!(state.get_curve("X").map(|curve| curve.policy_kind()), Some(PolicyKind::Stepped));
}

#[test]
fn a_wrong_type_is_reported_before_a_wrong_policy() {
    let mut state = ObjectState::new(0);
    assert_eq!(state.add_keyframe("X", 10, PolicyKind::Stepped, angle(1.0)), Ok(()));
    assert_eq!(
        state.add_keyframe("X", 20, PolicyKind::Linear, orbits(2)),
        Err(CurveError::TypeMismatch)
    );
}

#[test]
fn keyframes_of_the_declared_type_are_stored_and_overwritten() {
    let mut state = ObjectState::new(0);
    assert_eq!(state.add_keyframe("orbit", 0, PolicyKind::Stepped, orbits(0)), Ok(()));
    assert_eq!(state.add_keyframe("orbit", 60, PolicyKind::Stepped, orbits(1)), Ok(()));
    assert_eq!(state.add_keyframe("orbit", 60, PolicyKind::Stepped, orbits(2)), Ok(()));
    assert_eq!(state.get_keyframe_at("orbit", 0), Some(orbits(0)));
    assert_eq!(state.get_keyframe_at("orbit", 60), Some(orbits(2)));
    assert_eq!(state.get_keyframe_at("orbit", 30), None);
}

#[test]
fn names_are_told_apart_exactly() {
    let mut state = ObjectState::new(0);
    assert_eq!(state.add_keyframe("a", 1, PolicyKind::Pulse, orbits(1)), Ok(()));
    assert_eq!(state.add_keyframe("ab", 1, PolicyKind::Pulse, angle(2.0)), Ok(()));
    assert_eq!(state.add_keyframe("", 1, PolicyKind::Pulse, orbits(3)), Ok(()));
    assert_eq!(state.get_keyframe_at("a", 1), Some(orbits(1)));
    assert_eq!(state.get_keyframe_at("ab", 1), Some(angle(2.0)));
    assert_eq!(state.get_keyframe_at("", 1), Some(orbits(3)));
    assert_eq!(state.get_keyframe_at("A", 1), None);
    assert_eq!(
        state.curve_names(),
        vec!["a".to_string(), "ab".to_string(), String::new()]
    );
}

#[test]
fn an_unknown_curve_is_no_data() {
    let mut state = ObjectState::<Payload>::new(0);
    assert!(state.get_curve("missing").is_none());
    assert_eq!(state.get_keyframe_at("missing", 0), None);
    state.remove_keyframe("missing", 0);
    assert!(state.curve_names().is_empty());
    assert!(state.get_object_state(0).is_empty());
}

#[test]
fn removing_keyframes_keeps_the_registration() {
    let mut state = ObjectState::new(0);
    assert_eq!(state.add_keyframe("X", 10, PolicyKind::Stepped, angle(1.0)), Ok(()));
    state.remove_keyframe("X", 11);
    assert_eq!(state.get_keyframe_at("X", 10), Some(angle(1.0)));
    state.remove_keyframe("X", 10);
    assert_eq!(state.get_keyframe_at("X", 10), None);
    let curve = state.get_curve("X").expect("the name stays registered");
    assert!(curve.value_type().same_type(&angle_type()));
    assert_eq!(curve.policy_kind(), PolicyKind::Stepped);
    assert_eq!(
        state.add_keyframe("X", 10, PolicyKind::Stepped, orbits(1)),
        Err(CurveError::TypeMismatch)
    );
    assert_eq!(state.add_keyframe("X", 10, PolicyKind::Stepped, angle(2.0)), Ok(()));
    assert_eq!(state.get_keyframe_at("X", 10), Some(angle(2.0)));
}

#[test]
fn a_snapshot_leaves_out_the_curves_without_state() {
    let mut state = ObjectState::new(0);
    assert_eq!(state.add_keyframe("A", 10, PolicyKind::Linear, angle(1.0)), Ok(()));
    assert_eq!(state.add_keyframe("B", 0, PolicyKind::Stepped, orbits(4)), Ok(()));
    let snapshot = state.get_object_state(5);
    assert_eq!(snapshot, vec![("B".to_string(), orbits(4))]);
}

#[test]
fn a_snapshot_holds_each_state_in_the_order_of_registration() {
    let mut state = ObjectState::new(0);
    assert_eq!(state.add_keyframe("speed", 0, PolicyKind::Stepped, orbits(60)), Ok(()));
    assert_eq!(state.add_keyframe("angle", 0, PolicyKind::Linear, angle(0.0)), Ok(()));
    assert_eq!(state.add_keyframe("angle", 60, PolicyKind::Linear, angle(6.0)), Ok(()));
    assert_eq!(state.add_keyframe("hit", 30, PolicyKind::Pulse, orbits(1)), Ok(()));
    assert_eq!(state.add_keyframe("late", 100, PolicyKind::Stepped, orbits(9)), Ok(()));

    assert_eq!(
        state.get_object_state(30),
        vec![
            ("speed".to_string(), orbits(60)),
            ("angle".to_string(), angle(3.0)),
            ("hit".to_string(), orbits(1)),
        ]
    );
    assert_eq!(names(&state.get_object_state(31)), vec!["speed", "angle"]);
    assert_eq!(
        state.get_object_state(200),
        vec![
            ("speed".to_string(), orbits(60)),
            ("angle".to_string(), angle(6.0)),
            ("late".to_string(), orbits(9)),
        ]
    );
}

#[test]
fn a_keyframe_is_not_the_same_as_a_state() {
    let mut state = ObjectState::new(0);
    assert_eq!(state.add_keyframe("angle", 0, PolicyKind::Linear, angle(0.0)), Ok(()));
    assert_eq!(state.add_keyframe("angle", 60, PolicyKind::Linear, angle(6.0)), Ok(()));
    assert_eq!(state.get_keyframe_at("angle", 30), None);
    let curve = state.get_curve("angle").expect("the curve is registered");
    assert_eq!(curve.get_state(30), Some(angle(3.0)));
    assert_eq!(curve.get_keyframe(30), None);
    assert_eq!(curve.get_state(60), Some(angle(6.0)));
    assert_eq!(curve.get_keyframe(60), Some(angle(6.0)));
}

#[test]
fn a_dynamic_curve_checks_what_goes_in() {
    let mut curve = DynamicCurve::<Payload>::new(orbits_type(), PolicyKind::Pulse);
    assert_eq!(curve.insert_keyframe(5, PolicyKind::Pulse, orbits(1)), Ok(()));
    assert_eq!(
        curve.insert_keyframe(6, PolicyKind::Pulse, angle(1.0)),
        Err(CurveError::TypeMismatch)
    );
    assert_eq!(
        curve.insert_keyframe(6, PolicyKind::Stepped, orbits(1)),
        Err(CurveError::PolicyMismatch)
    );
    assert_eq!(curve.get_state(5), Some(orbits(1)));
    assert_eq!(curve.get_state(6), None);
    assert_eq!(curve.get_keyframe(6), None);
    curve.remove_keyframe(5);
    assert_eq!(curve.get_state(5), None);
    assert!(curve.value_type().same_type(&orbits_type()));
    assert_eq!(curve.policy_kind(), PolicyKind::Pulse);
}

#[test]
fn states_carry_the_declared_type() {
    let mut state = ObjectState::new(0);
    assert_eq!(state.add_keyframe("angle", 0, PolicyKind::Linear, angle(0.0)), Ok(()));
    assert_eq!(state.add_keyframe("angle", 10, PolicyKind::Linear, angle(5.0)), Ok(()));
    let snapshot = state.get_object_state(4);
    assert_eq!(snapshot.len(), 1);
    assert_eq!(snapshot[0].1.downcast(&angle_type()), Ok(&Payload::Angle(2.0)));
    assert_eq!(snapshot[0].1.downcast(&orbits_type()), Err(CurveError::TypeMismatch));
}

#[test]
fn a_policy_curve_works_on_plain_payloads() {
    for (policy, between) in [
        (PolicyKind::Linear, Some(Payload::Angle(2.5))),
        (PolicyKind::Stepped, Some(Payload::Angle(0.0))),
        (PolicyKind::Pulse, None),
    ] {
        let mut curve = PolicyCurve::new(policy);
        assert_eq!(curve.policy_kind(), policy);
        curve.insert_keyframe(0, Payload::Angle(0.0));
        curve.insert_keyframe(10, Payload::Angle(5.0));
        curve.insert_keyframe(20, Payload::Angle(7.0));
        curve.remove_keyframe(20);
        assert_eq!(curve.get_keyframe(20), None);
        assert_eq!(curve.get_keyframe(10), Some(&Payload::Angle(5.0)));
        assert_eq!(curve.get_state(5), between);
        assert_eq!(curve.get_state(10), Some(Payload::Angle(5.0)));
    }
}

#[test]
fn the_lifecycle_ticks_are_kept_and_bind_no_query() {
    let mut state = ObjectState::new(7);
    assert_eq!(state.created_tick(), 7);
    assert_eq!(state.destroyed_tick(), None);
    assert_eq!(state.add_keyframe("orbit", 0, PolicyKind::Stepped, orbits(1)), Ok(()));
    state.mark_destroyed(9);
    assert_eq!(state.created_tick(), 7);
    assert_eq!(state.destroyed_tick(), Some(9));
    assert_eq!(state.get_object_state(3), vec![("orbit".to_string(), orbits(1))]);
    assert_eq!(state.get_object_state(50), vec![("orbit".to_string(), orbits(1))]);
    assert_eq!(state.add_keyframe("orbit", 20, PolicyKind::Stepped, orbits(2)), Ok(()));
    assert_eq!(state.get_object_state(50), vec![("orbit".to_string(), orbits(2))]);
}
