//! Behavior of the parallel-wheel pose estimator: wheel conversion, heading
//! fusion and fallback, the arc-chord integration step, and error handling.

use odometry::devices::{SimGyro, SimRotary};
use odometry::fixed::{cos_fx, sin_fx, wrap_angle, FULL_TURN, SCALE};
use odometry::tracking::{
    ParallelWheelTracking, Tracking, TrackingError, TrackingWheel, ROTATION_LIMIT,
};
use odometry::vec2::Vec2;

/// A wheel whose diameter of two units makes travel equal the raw rotation.
fn unit_wheel(raw: i64, offset: i64) -> TrackingWheel<SimRotary> {
    TrackingWheel::new(SimRotary::new(raw), 2 * SCALE, offset, None)
}

fn no_gyro_estimator(
    left_raw: i64,
    right_raw: i64,
    heading: i64,
) -> ParallelWheelTracking<SimRotary, SimRotary, SimGyro> {
    ParallelWheelTracking::new(
        Vec2::new(0, 0),
        heading,
        unit_wheel(left_raw, 5 * SCALE),
        unit_wheel(right_raw, 5 * SCALE),
        None,
    )
}

#[test]
fn travel_doubles_with_rotation() {
    let w = unit_wheel(7_000_000, 0);
    let w2 = unit_wheel(14_000_000, 0);
    assert_eq!(w.travel(), Ok(7_000_000));
    assert_eq!(w2.travel(), Ok(14_000_000));
}

#[test]
fn travel_truncates_toward_zero() {
    // A one-unit wheel halves the rotation: the fixed-point step that
    // truncation discards breaks exact doubling at odd rotations.
    let half = TrackingWheel::new(SimRotary::new(3), SCALE, 0, None);
    assert_eq!(half.travel(), Ok(1));
    let half_neg = TrackingWheel::new(SimRotary::new(-3), SCALE, 0, None);
    assert_eq!(half_neg.travel(), Ok(-1));
}

#[test]
fn travel_applies_gearing() {
    let geared = TrackingWheel::new(SimRotary::new(3_000_000), SCALE, 0, Some(2 * SCALE));
    assert_eq!(geared.travel(), Ok(3_000_000));
}

#[test]
fn travel_rejects_out_of_range_rotation() {
    let w = TrackingWheel::new(SimRotary::new(ROTATION_LIMIT + 1), 2 * SCALE, 0, None);
    assert_eq!(w.travel(), Err(TrackingError::OutOfRange));
}

#[test]
fn travel_propagates_sensor_fault() {
    let w = TrackingWheel::new(SimRotary::faulty(), 2 * SCALE, 0, None);
    assert_eq!(w.travel(), Err(TrackingError::SensorFault));
}

#[test]
fn forward_travel_is_mean_of_wheels() {
    let est = no_gyro_estimator(10_000_000, 4_000_000, 0);
    assert_eq!(est.forward_travel(), Ok(7_000_000));
}

#[test]
fn set_heading_round_trip_with_gyro() {
    let mut est = ParallelWheelTracking::new(
        Vec2::new(0, 0),
        123,
        unit_wheel(3, 5 * SCALE),
        unit_wheel(7, 5 * SCALE),
        Some(SimGyro::new(777_000)),
    );
    assert_eq!(est.set_heading(123_456), Ok(()));
    assert_eq!(est.heading(), Ok(123_456));
}

#[test]
fn set_heading_round_trip_kinematic() {
    let mut est = no_gyro_estimator(5_000_000, -5_000_000, 42);
    assert_eq!(est.set_heading(-9_876), Ok(()));
    assert_eq!(est.heading(), Ok(-9_876));
}

#[test]
fn straight_line_advance() {
    // Both wheels advance 10.0 units, no gyroscope, initial heading zero:
    // one step moves the position exactly 10.0 units along the x-axis and
    // leaves the heading at zero (the degenerate-arc fallback).
    let mut est = no_gyro_estimator(10_000_000, 10_000_000, 0);
    assert_eq!(est.heading(), Ok(0));
    assert_eq!(est.update(), Ok(()));
    assert_eq!(est.position(), Vec2 { x: 10_000_000, y: 0 });
    assert_eq!(est.heading(), Ok(0));
}

#[test]
fn pure_rotation_advance() {
    // Left +5.0, right -5.0, track width 10.0: the kinematic heading is
    // exactly -1.0 radian, the forward travel is zero, and the arc chord of
    // a zero travel delta leaves the position unchanged.
    let mut est = no_gyro_estimator(5_000_000, -5_000_000, 0);
    assert_eq!(est.forward_travel(), Ok(0));
    assert_eq!(est.heading(), Ok(-1_000_000));
    assert_eq!(est.update(), Ok(()));
    assert_eq!(est.position(), Vec2 { x: 0, y: 0 });
    assert_eq!(est.heading(), Ok(-1_000_000));
}

#[test]
fn curved_advance_follows_arc_chord() {
    // Left +5.0 and right +15.0 units over one cycle: forward travel 10.0,
    // kinematic heading delta exactly 1.0 radian. The displacement is the
    // arc chord 2 * (10.0 / 1.0) * sin(0.5) pointed along the mean heading
    // 0.5, evaluated in the library's fixed-point trigonometry.
    let mut est = no_gyro_estimator(5_000_000, 15_000_000, 0);
    assert_eq!(est.forward_travel(), Ok(10_000_000));
    assert_eq!(est.heading(), Ok(1_000_000));
    assert_eq!(sin_fx(500_000), 479_426);
    assert_eq!(cos_fx(500_000), 877_583);
    assert_eq!(est.update(), Ok(()));
    // chord = (2 * 10_000_000 * 479_426) / 1_000_000 = 9_588_520
    assert_eq!(est.position(), Vec2 { x: 8_414_722, y: 4_596_985 });
}

#[test]
fn one_step_heading_delta_is_straight() {
    // A heading delta of a single fixed-point step takes the straight-line
    // fallback: halving it must not zero the cycle's displacement.
    let mut est = ParallelWheelTracking::new(
        Vec2::new(0, 0),
        0,
        unit_wheel(10_000_000, 5 * SCALE),
        unit_wheel(10_000_000, 5 * SCALE),
        Some(SimGyro::new(1)),
    );
    assert_eq!(est.heading(), Ok(1));
    assert_eq!(est.update(), Ok(()));
    assert_eq!(est.position(), Vec2 { x: 10_000_000, y: 10 });
}

#[test]
fn observers_are_idempotent() {
    let est = no_gyro_estimator(5_000_000, -5_000_000, 7);
    assert_eq!(est.heading(), est.heading());
    assert_eq!(est.position(), est.position());
    assert_eq!(est.forward_travel(), est.forward_travel());
}

#[test]
fn faulty_gyro_matches_kinematic_path() {
    let with_faulty_gyro = ParallelWheelTracking::new(
        Vec2::new(0, 0),
        31,
        unit_wheel(5_000_000, 5 * SCALE),
        unit_wheel(-5_000_000, 5 * SCALE),
        Some(SimGyro::faulty()),
    );
    let without_gyro = no_gyro_estimator(5_000_000, -5_000_000, 31);
    assert_eq!(with_faulty_gyro.heading(), without_gyro.heading());
    assert_eq!(with_faulty_gyro.heading(), Ok(31 - 1_000_000));
}

#[test]
fn healthy_gyro_overrides_kinematic() {
    let est = ParallelWheelTracking::new(
        Vec2::new(0, 0),
        0,
        unit_wheel(5_000_000, 5 * SCALE),
        unit_wheel(-5_000_000, 5 * SCALE),
        Some(SimGyro::new(250_000)),
    );
    assert_eq!(est.heading(), Ok(250_000));
}

#[test]
fn heading_wraps_full_turns() {
    let est = ParallelWheelTracking::new(
        Vec2::new(0, 0),
        0,
        unit_wheel(0, 5 * SCALE),
        unit_wheel(0, 5 * SCALE),
        Some(SimGyro::new(FULL_TURN + 5)),
    );
    assert_eq!(est.heading(), Ok(5));
}

#[test]
fn sensor_fault_aborts_update_without_partial_state() {
    let mut est = ParallelWheelTracking::<SimRotary, SimRotary, SimGyro>::new(
        Vec2::new(11, -22),
        0,
        TrackingWheel::new(SimRotary::faulty(), 2 * SCALE, 5 * SCALE, None),
        unit_wheel(4_000_000, 5 * SCALE),
        None,
    );
    assert_eq!(est.forward_travel(), Err(TrackingError::SensorFault));
    assert_eq!(est.heading(), Err(TrackingError::SensorFault));
    assert_eq!(est.set_heading(9), Err(TrackingError::SensorFault));
    assert_eq!(est.update(), Err(TrackingError::SensorFault));
    assert_eq!(est.position(), Vec2 { x: 11, y: -22 });
}

#[test]
fn gyro_saves_heading_from_wheel_fault_but_not_travel() {
    let mut est = ParallelWheelTracking::new(
        Vec2::new(0, 0),
        0,
        TrackingWheel::new(SimRotary::faulty(), 2 * SCALE, 5 * SCALE, None),
        unit_wheel(4_000_000, 5 * SCALE),
        Some(SimGyro::new(100)),
    );
    assert_eq!(est.heading(), Ok(100));
    assert_eq!(est.forward_travel(), Err(TrackingError::SensorFault));
    assert_eq!(est.update(), Err(TrackingError::SensorFault));
}

#[test]
fn gyro_heading_drives_integration() {
    // Both wheels advance 10.0 units while a healthy gyroscope reports a
    // heading of 1.0 radian: the step integrates the same chord as the
    // kinematic curve with that heading delta.
    let mut est = ParallelWheelTracking::new(
        Vec2::new(0, 0),
        0,
        unit_wheel(10_000_000, 5 * SCALE),
        unit_wheel(10_000_000, 5 * SCALE),
        Some(SimGyro::new(1_000_000)),
    );
    assert_eq!(est.heading(), Ok(1_000_000));
    assert_eq!(est.update(), Ok(()));
    assert_eq!(est.position(), Vec2 { x: 8_414_722, y: 4_596_985 });
}

#[test]
fn position_overflow_is_rejected() {
    let mut est = no_gyro_estimator(10_000_000, 10_000_000, 0);
    est.set_position(Vec2 { x: i64::MAX - 5, y: 0 });
    assert_eq!(est.update(), Err(TrackingError::OutOfRange));
    assert_eq!(est.position(), Vec2 { x: i64::MAX - 5, y: 0 });
}

#[test]
fn set_position_seeds_pose() {
    let mut est = no_gyro_estimator(0, 0, 0);
    est.set_position(Vec2 { x: 123, y: -456 });
    assert_eq!(est.position(), Vec2 { x: 123, y: -456 });
}

#[test]
fn from_polar_along_axis() {
    assert_eq!(Vec2::from_polar(2_000_000, 0), Vec2 { x: 2_000_000, y: 0 });
    assert_eq!(Vec2::from_polar(0, 123_456), Vec2 { x: 0, y: 0 });
}

#[test]
fn trig_at_zero() {
    assert_eq!(sin_fx(0), 0);
    assert_eq!(cos_fx(0), SCALE);
    assert_eq!(wrap_angle(FULL_TURN), 0);
    assert_eq!(wrap_angle(-1), -1);
}
