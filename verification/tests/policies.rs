use bevy_state_curves::curves::{Curve, CurveTrait};
use bevy_state_curves::keyframe_trait::{
    BlendRatio, LinearKeyframe, PulseKeyframe, SteppedKeyframe,
};
use bevy_state_curves::linear::{LinearCurve, LinearSegment};
use bevy_state_curves::pulse::PulseCurve;
use bevy_state_curves::stepped::SteppedCurve;

#[derive(Clone, Debug, PartialEq)]
struct Angle(f64);

impl LinearKeyframe<Angle> for Angle {
    fn lerp(&self, next_frame_state: &Angle, ratio: BlendRatio) -> Angle {
        let ratio = ratio.elapsed as f64 / ratio.span as f64;
        Angle(self.0 + (next_frame_state.0 - self.0) * ratio)
    }
}

/// Records what `lerp` was called with.
#[derive(Clone, Debug, PartialEq)]
enum Trace {
    Keyframe(u32),
    Blended { from: u32, to: u32, elapsed: u64, span: u64 },
}

impl LinearKeyframe<Trace> for Trace {
    fn lerp(&self, next_frame_state: &Trace, ratio: BlendRatio) -> Trace {
        match (self, next_frame_state) {
            (Trace::Keyframe(from), Trace::Keyframe(to)) => Trace::Blended {
                from: *from,
                to: *to,
                elapsed: ratio.elapsed,
                span: ratio.span,
            },
            _ => panic!("only keyframes are stored"),
        }
    }
}

#[derive(Clone, Debug, PartialEq)]
struct Orbits(u32);

impl SteppedKeyframe<Orbits> for Orbits {}

impl PulseKeyframe<Orbits> for Orbits {}

fn angles() -> LinearCurve<Angle> {
    let mut curve = LinearCurve::new();
    curve.insert_keyframe(0, Angle(0.0));
    curve.insert_keyframe(60, Angle(6.0));
    curve
}

#[test]
fn linear_exact_hits_are_not_blended() {
    let mut curve = LinearCurve::<Trace>::new();
    curve.insert_keyframe(10, Trace::Keyframe(1));
    curve.insert_keyframe(20, Trace::Keyframe(2));
    curve.insert_keyframe(30, Trace::Keyframe(3));
    assert_eq!(curve.get_state(10), Some(Trace::Keyframe(1)));
    assert_eq!(curve.get_state(20), Some(Trace::Keyframe(2)));
    assert_eq!(curve.get_state(30), Some(Trace::Keyframe(3)));
}

#[test]
fn linear_blends_between_two_keyframes() {
    let curve = angles();
    assert_eq!(curve.get_state(30), Some(Angle(3.0)));
    assert_eq!(curve.get_state(0), Some(Angle(0.0)));
    assert_eq!(curve.get_state(60), Some(Angle(6.0)));
    assert_eq!(curve.get_state(15), Some(Angle(1.5)));
    assert_eq!(curve.get_state(45), Some(Angle(4.5)));
}

#[test]
fn linear_holds_the_last_keyframe_past_the_end() {
    let curve = angles();
    assert_eq!(curve.get_state(61), Some(Angle(6.0)));
    assert_eq!(curve.get_state(120), Some(Angle(6.0)));
    assert_eq!(curve.get_state(u64::MAX), Some(Angle(6.0)));
}

#[test]
fn linear_has_no_state_before_the_first_keyframe() {
    let mut curve = LinearCurve::new();
    curve.insert_keyframe(10, Angle(1.0));
    curve.insert_keyframe(20, Angle(2.0));
    for tick in 0..10 {
        assert_eq!(curve.get_state(tick), None);
    }
    assert_eq!(curve.get_state(10), Some(Angle(1.0)));
}

#[test]
fn linear_has_no_state_without_keyframes() {
    let curve = LinearCurve::<Angle>::new();
    assert_eq!(curve.get_state(0), None);
    assert_eq!(curve.get_state(30), None);
}

#[test]
fn linear_hands_lerp_the_neighbours_and_the_ticks_elapsed() {
    let mut curve = LinearCurve::new();
    curve.insert_keyframe(10, Trace::Keyframe(1));
    curve.insert_keyframe(20, Trace::Keyframe(2));
    curve.insert_keyframe(50, Trace::Keyframe(5));
    assert_eq!(
        curve.get_state(13),
        Some(Trace::Blended { from: 1, to: 2, elapsed: 3, span: 10 })
    );
    assert_eq!(
        curve.get_state(19),
        Some(Trace::Blended { from: 1, to: 2, elapsed: 9, span: 10 })
    );
    assert_eq!(
        curve.get_state(21),
        Some(Trace::Blended { from: 2, to: 5, elapsed: 1, span: 30 })
    );
    assert_eq!(curve.get_state(51), Some(Trace::Keyframe(5)));
    assert_eq!(curve.get_state(9), None);
}

#[test]
fn linear_blends_over_the_whole_range_of_ticks() {
    let mut curve = LinearCurve::new();
    curve.insert_keyframe(0, Trace::Keyframe(0));
    curve.insert_keyframe(u64::MAX, Trace::Keyframe(9));
    assert_eq!(
        curve.get_state(u64::MAX - 1),
        Some(Trace::Blended { from: 0, to: 9, elapsed: u64::MAX - 1, span: u64::MAX })
    );
}

#[test]
fn linear_follows_removals_and_overwrites() {
    let mut curve = angles();
    curve.insert_keyframe(30, Angle(0.0));
    assert_eq!(curve.get_state(15), Some(Angle(0.0)));
    assert_eq!(curve.get_state(45), Some(Angle(3.0)));
    curve.remove_keyframe(30);
    assert_eq!(curve.get_state(45), Some(Angle(4.5)));
    curve.insert_keyframe(60, Angle(12.0));
    assert_eq!(curve.get_state(45), Some(Angle(9.0)));
    curve.remove_future_keyframes(&60);
    assert_eq!(curve.get_state(45), Some(Angle(0.0)));
    curve.remove_past_keyframes(&0);
    assert_eq!(curve.get_state(45), None);
}

#[test]
fn stepped_holds_until_the_next_keyframe() {
    let mut curve = SteppedCurve::<Orbits>::new();
    curve.insert_keyframe(0, Orbits(0));
    curve.insert_keyframe(60, Orbits(1));
    assert_eq!(curve.get_state(0), Some(Orbits(0)));
    assert_eq!(curve.get_state(59), Some(Orbits(0)));
    assert_eq!(curve.get_state(60), Some(Orbits(1)));
    assert_eq!(curve.get_state(1000), Some(Orbits(1)));
}

#[test]
fn stepped_has_no_state_before_any_keyframe() {
    let mut curve = SteppedCurve::<Orbits>::new();
    assert_eq!(curve.get_state(5), None);
    curve.insert_keyframe(10, Orbits(3));
    assert_eq!(curve.get_state(0), None);
    assert_eq!(curve.get_state(9), None);
    assert_eq!(curve.get_state(10), Some(Orbits(3)));
}

#[test]
fn pulse_exists_only_on_its_tick() {
    let mut curve = PulseCurve::<Orbits>::new();
    curve.insert_keyframe(5, Orbits(7));
    assert_eq!(curve.get_state(5), Some(Orbits(7)));
    assert_eq!(curve.get_state(4), None);
    assert_eq!(curve.get_state(6), None);
}

#[test]
fn pulse_has_no_state_without_keyframes() {
    let curve = PulseCurve::<Orbits>::new();
    assert_eq!(curve.get_state(0), None);
}

#[test]
fn queries_do_not_change_a_curve() {
    let curve = angles();
    let before: Vec<(u64, Angle)> =
        curve.iter_future_curves(0).into_iter().map(|(t, v)| (*t, v.clone())).collect();
    let _ = curve.get_state(30);
    let _ = curve.get_state(0);
    let _ = curve.get_state(999);
    let after: Vec<(u64, Angle)> =
        curve.iter_future_curves(0).into_iter().map(|(t, v)| (*t, v.clone())).collect();
    assert_eq!(before, after);
    assert_eq!(after, vec![(0, Angle(0.0)), (60, Angle(6.0))]);
}

#[test]
fn every_curve_type_offers_the_store_operations() {
    let mut curve = SteppedCurve::<Orbits>::new();
    curve.insert_keyframe(10, Orbits(1));
    curve.insert_keyframe(20, Orbits(2));
    curve.insert_keyframe(30, Orbits(3));
    assert_eq!(curve.get_keyframe(20), Some(&Orbits(2)));
    assert_eq!(curve.next_keyframe(20), Some((&20, &Orbits(2))));
    assert_eq!(curve.next_keyframe_after(20), Some((&30, &Orbits(3))));
    assert_eq!(curve.prev_keyframe(20), Some((&20, &Orbits(2))));
    assert_eq!(curve.prev_keyframe_before(20), Some((&10, &Orbits(1))));
    assert_eq!(curve.iter_future_curves(20).len(), 2);
    assert_eq!(curve.iter_prev_curves(20).len(), 2);
    if let Some(value) = curve.get_keyframe_mut(10) {
        value.0 = 11;
    }
    if let Some((_, value)) = curve.next_keyframe_mut(15) {
        value.0 = 22;
    }
    if let Some((_, value)) = curve.prev_keyframe_mut(35) {
        value.0 = 33;
    }
    assert_eq!(curve.get_state(10), Some(Orbits(11)));
    assert_eq!(curve.get_state(25), Some(Orbits(22)));
    assert_eq!(curve.get_state(35), Some(Orbits(33)));
    for (_, value) in curve.iter_future_curves_mut(20) {
        value.0 += 100;
    }
    for (_, value) in curve.iter_prev_curves_mut(20) {
        value.0 += 1000;
    }
    assert_eq!(curve.get_state(10), Some(Orbits(1011)));
    assert_eq!(curve.get_state(20), Some(Orbits(1122)));
    assert_eq!(curve.get_state(30), Some(Orbits(133)));
    curve.remove_keyframe(20);
    assert_eq!(curve.get_state(25), Some(Orbits(1011)));
    curve.remove_past_keyframes(&10);
    assert_eq!(curve.get_state(25), None);
    curve.remove_future_keyframes(&30);
    assert_eq!(curve.get_state(35), None);
}

#[test]
fn a_curve_is_made_of_a_store_and_gives_it_back() {
    let mut store = Curve::new();
    store.insert_keyframe(0, Angle(0.0));
    store.insert_keyframe(10, Angle(5.0));
    let linear = LinearCurve::from_curve(store);
    assert_eq!(linear.get_state(4), Some(Angle(2.0)));
    let store = linear.into_curve();
    assert_eq!(store.get_keyframe(10), Some(&Angle(5.0)));

    let mut store = Curve::new();
    store.insert_keyframe(3, Orbits(1));
    let stepped = SteppedCurve::from_curve(store);
    assert_eq!(stepped.get_state(4), Some(Orbits(1)));
    let pulse = PulseCurve::from_curve(stepped.into_curve());
    assert_eq!(pulse.get_state(4), None);
    assert_eq!(pulse.get_state(3), Some(Orbits(1)));
    assert_eq!(pulse.into_curve().get_keyframe(3), Some(&Orbits(1)));
}

#[test]
fn linear_segment_tells_where_a_tick_lies() {
    let mut curve = LinearCurve::new();
    assert_eq!(curve.segment(5), LinearSegment::Undefined);
    curve.insert_keyframe(10, Angle(1.0));
    curve.insert_keyframe(20, Angle(2.0));
    curve.insert_keyframe(40, Angle(4.0));
    assert_eq!(curve.segment(0), LinearSegment::Undefined);
    assert_eq!(curve.segment(9), LinearSegment::Undefined);
    assert_eq!(curve.segment(10), LinearSegment::Exact);
    assert_eq!(curve.segment(11), LinearSegment::Blend { prev: 10, next: 20 });
    assert_eq!(curve.segment(20), LinearSegment::Exact);
    assert_eq!(curve.segment(39), LinearSegment::Blend { prev: 20, next: 40 });
    assert_eq!(curve.segment(40), LinearSegment::Exact);
    assert_eq!(curve.segment(41), LinearSegment::Hold { at: 40 });
    assert_eq!(curve.segment(u64::MAX), LinearSegment::Hold { at: 40 });
}
