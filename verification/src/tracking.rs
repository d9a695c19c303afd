//! The tracking subsystem: wheel-geometry-to-distance conversion, the
//! abstract tracking contract, and the parallel-two-wheel pose estimator
//! that fuses wheel and gyroscope readings into a pose update each cycle.

use crate::devices::{Gyro, RotarySensor};
use crate::fixed::{
    cos_spec, lemma_mul_mag_bound, lemma_tdiv_bound, lemma_wrap_bound, mag, scaled_mul, sin_spec,
    tdiv, wrap_angle_spec, HALF_TURN, SCALE,
};
use crate::vec2::{Vec2, POLAR_MAGNITUDE_MAX};
use vstd::prelude::*;

verus! {

/// Largest raw rotation a wheel sensor reading may report.
pub const ROTATION_LIMIT: i64 = 10_000_000_000;

/// Largest gearing ratio a wheel may be built with.
pub const GEARING_LIMIT: i64 = 100_000_000;

/// Largest wheel diameter a wheel may be built with.
pub const DIAMETER_LIMIT: i64 = 1_000_000_000;

/// Largest magnitude a wheel's centerline offset may have.
pub const OFFSET_LIMIT: i64 = 1_000_000_000;

/// Smallest track width an estimator may be built with.
pub const TRACK_WIDTH_MIN: i64 = 1_000;

/// Largest magnitude a wheel's linear travel can reach within the limits above.
pub const TRAVEL_LIMIT: i64 = 500_000_000_000_000;

/// Largest magnitude accepted for a heading handed to the estimator.
pub const HEADING_LIMIT: i64 = 1_000_000_000_000_000_000;

/// Largest magnitude the stored heading offset can reach.
pub const OFFSET_BOUND: i64 = HEADING_LIMIT + HALF_TURN;

/// Largest magnitude a reported heading can reach.
pub const HEADING_BOUND: i64 = OFFSET_BOUND + HALF_TURN;

/// Twice the square of the fixed-point scale: the divisor that turns
/// rotation times gearing times diameter into linear travel.
pub const TWO_SCALE_SQ: i64 = 2 * SCALE * SCALE;

/// Why a tracking operation could not produce a value.
#[derive(Clone, Copy, PartialEq, Eq, Structural, Debug)]
pub enum TrackingError {
    /// A rotary sensor read faulted; the cycle must be abandoned.
    SensorFault,
    /// A reading or an intermediate value exceeded the representable range.
    OutOfRange,
}

/// Linear travel of a wheel contact point: `rotation / two_pi * gearing *
/// (diameter * pi)` simplifies to this single truncating division.
pub open spec fn wheel_travel_formula(rotation: int, gearing: int, diameter: int) -> int {
    tdiv(rotation * gearing * diameter, TWO_SCALE_SQ as int)
}

/// Differential-drive heading estimate: differential wheel travel over the
/// track width, in fixed-point radians.
pub open spec fn kinematic_formula(left: int, right: int, track_width: int) -> int {
    tdiv((right - left) * SCALE, track_width)
}

/// Arc-chord displacement magnitude for a travel delta and a heading delta:
/// `2 * (dt / dh) * sin(dh / 2)`, falling back to straight-line travel when
/// the heading moved at most one fixed-point step — the `sin(x)/x -> 1`
/// limit, with a one-step tolerance so that halving a single step cannot
/// zero the cycle's displacement.
pub open spec fn chord_formula(dt: int, dh: int) -> int {
    if -1 <= dh <= 1 {
        dt
    } else {
        tdiv(2 * dt * sin_spec(tdiv(dh, 2)), dh)
    }
}

/// One integration step, as a function of what the estimator observes: the
/// stored position, the two history fields, and the current forward-travel
/// and heading reads. On success the result carries the new position and the
/// two new history values `(x, y, forward_travel, heading)`; otherwise it
/// carries the error that aborts the step, with nothing applied.
pub open spec fn step_outcome(
    position: (int, int),
    prev_forward: int,
    prev_heading: int,
    forward: Result<int, TrackingError>,
    heading: Result<int, TrackingError>,
) -> Result<(int, int, int, int), TrackingError> {
    match forward {
        Err(e) => Err(e),
        Ok(ft) => match heading {
            Err(e) => Err(e),
            Ok(h) => {
                let dt = ft - prev_forward;
                let dh = h - prev_heading;
                let chord = chord_formula(dt, dh);
                let dir = if -1 <= dh <= 1 {
                    h
                } else {
                    prev_heading + tdiv(dh, 2)
                };
                if mag(chord) > POLAR_MAGNITUDE_MAX as int {
                    Err(TrackingError::OutOfRange)
                } else {
                    let nx = position.0 + scaled_mul(chord, cos_spec(dir));
                    let ny = position.1 + scaled_mul(chord, sin_spec(dir));
                    if nx > i64::MAX || nx < i64::MIN || ny > i64::MAX || ny < i64::MIN {
                        Err(TrackingError::OutOfRange)
                    } else {
                        Ok((nx, ny, ft, h))
                    }
                }
            },
        },
    }
}

/// A wheel attached to a rotary sensor, with its mounting geometry.
pub struct TrackingWheel<T: RotarySensor> {
    /// The rotary sensor mounted on the wheel's shaft.
    pub sensor: T,
    /// Wheel diameter, in fixed-point distance units; must be positive.
    pub wheel_diameter: i64,
    /// Signed perpendicular distance from the drivetrain's centerline.
    pub offset: i64,
    /// Sensor-shaft rotations per wheel rotation; `None` means direct drive.
    pub gearing: Option<i64>,
}

impl<T: RotarySensor> TrackingWheel<T> {
    /// The gearing ratio in effect: the configured one, or one-to-one.
    pub open spec fn gearing_val(&self) -> int {
        match self.gearing {
            Some(g) => g as int,
            None => SCALE as int,
        }
    }

    /// Geometry invariant: positive bounded diameter and gearing, bounded offset.
    pub open spec fn wf(&self) -> bool {
        &&& 0 < self.wheel_diameter <= DIAMETER_LIMIT
        &&& mag(self.offset as int) <= OFFSET_LIMIT as int
        &&& 0 < self.gearing_val() <= GEARING_LIMIT as int
    }

    /// The linear travel this wheel reports for a raw sensor rotation.
    pub open spec fn travel_of(&self, rotation: int) -> int {
        wheel_travel_formula(rotation, self.gearing_val(), self.wheel_diameter as int)
    }

    /// What `travel` returns in the sensor's current state: the converted
    /// distance, or the error identifying what went wrong.
    pub open spec fn travel_spec(&self) -> Result<int, TrackingError> {
        match self.sensor.rotation_spec() {
            None => Err(TrackingError::SensorFault),
            Some(raw) => if mag(raw) > ROTATION_LIMIT as int {
                Err(TrackingError::OutOfRange)
            } else {
                Ok(self.travel_of(raw))
            },
        }
    }

    /// A wheel with the given sensor and geometry.
    pub fn new(sensor: T, wheel_diameter: i64, offset: i64, gearing: Option<i64>) -> (w: Self)
        requires
            0 < wheel_diameter <= DIAMETER_LIMIT,
            -OFFSET_LIMIT <= offset <= OFFSET_LIMIT,
            match gearing {
                Some(g) => 0 < g <= GEARING_LIMIT,
                None => true,
            },
        ensures
            w == (TrackingWheel { sensor, wheel_diameter, offset, gearing }),
            w.wf(),
    {
        TrackingWheel { sensor, wheel_diameter, offset, gearing }
    }

    /// Read the sensor and convert shaft rotation to linear distance traveled
    /// by the wheel's contact point. A sensor fault or an out-of-range
    /// reading is reported as an error, never substituted.
    pub fn travel(&self) -> (r: Result<i64, TrackingError>)
        requires
            self.wf(),
        ensures
            match r {
                Ok(v) => self.travel_spec() == Ok::<int, TrackingError>(v as int) && mag(v as int)
                    <= TRAVEL_LIMIT as int,
                Err(e) => self.travel_spec() == Err::<int, TrackingError>(e),
            },
    {
        match self.sensor.rotation() {
            None => Err(TrackingError::SensorFault),
            Some(raw) => {
                if raw > ROTATION_LIMIT || raw < -ROTATION_LIMIT {
                    Err(TrackingError::OutOfRange)
                } else {
                    let gearing: i64 = match self.gearing {
                        Some(g) => g,
                        None => SCALE,
                    };
                    proof {
                        lemma_mul_mag_bound(
                            raw as int,
                            gearing as int,
                            ROTATION_LIMIT as int,
                            GEARING_LIMIT as int,
                        );
                        lemma_mul_mag_bound(
                            (raw as int) * (gearing as int),
                            self.wheel_diameter as int,
                            ROTATION_LIMIT as int * (GEARING_LIMIT as int),
                            DIAMETER_LIMIT as int,
                        );
                        lemma_tdiv_bound(
                            (raw as int) * (gearing as int) * (self.wheel_diameter as int),
                            TWO_SCALE_SQ as int,
                            ROTATION_LIMIT as int * (GEARING_LIMIT as int) * (DIAMETER_LIMIT as int),
                            TWO_SCALE_SQ as int,
                        );
                        lemma_travel_ground_arith();
                    }
                    let p: i128 = raw as i128 * gearing as i128 * self.wheel_diameter as i128;
                    let q = crate::fixed::div_trunc(p, TWO_SCALE_SQ as i128);
                    Ok(q as i64)
                }
            },
        }
    }
}

/// The quotient of the wheel-limit product by the travel divisor is the
/// travel limit, spelled out so the ground arithmetic is settled once.
proof fn lemma_travel_ground_arith()
    ensures
        ROTATION_LIMIT as int * (GEARING_LIMIT as int) * (DIAMETER_LIMIT as int) / (
        TWO_SCALE_SQ as int) == TRAVEL_LIMIT as int,
{
    assert(ROTATION_LIMIT as int * (GEARING_LIMIT as int) * (DIAMETER_LIMIT as int)
        == 1_000_000_000_000_000_000_000_000_000int) by (nonlinear_arith);
    assert(1_000_000_000_000_000_000_000_000_000int == 500_000_000_000_000int * (
    TWO_SCALE_SQ as int)) by (nonlinear_arith);
    vstd::arithmetic::div_mod::lemma_div_multiples_vanish(
        500_000_000_000_000int,
        TWO_SCALE_SQ as int,
    );
    assert(TWO_SCALE_SQ as int * 500_000_000_000_000int == 500_000_000_000_000int * (
    TWO_SCALE_SQ as int)) by (nonlinear_arith);
}

/// Travel stays within `TRAVEL_LIMIT` for any in-range rotation of a
/// well-formed wheel.
pub proof fn lemma_travel_bound<T: RotarySensor>(w: TrackingWheel<T>, rotation: int)
    requires
        w.wf(),
        mag(rotation) <= ROTATION_LIMIT as int,
    ensures
        mag(w.travel_of(rotation)) <= TRAVEL_LIMIT as int,
{
    lemma_mul_mag_bound(rotation, w.gearing_val(), ROTATION_LIMIT as int, GEARING_LIMIT as int);
    lemma_mul_mag_bound(
        rotation * w.gearing_val(),
        w.wheel_diameter as int,
        ROTATION_LIMIT as int * (GEARING_LIMIT as int),
        DIAMETER_LIMIT as int,
    );
    lemma_tdiv_bound(
        rotation * w.gearing_val() * (w.wheel_diameter as int),
        TWO_SCALE_SQ as int,
        ROTATION_LIMIT as int * (GEARING_LIMIT as int) * (DIAMETER_LIMIT as int),
        TWO_SCALE_SQ as int,
    );
    lemma_travel_ground_arith();
}

/// Law: wheel travel is linear in sensor rotation. Doubling the raw rotation
/// doubles the reported distance, stated here for the rotations at which the
/// fixed-point conversion divides exactly (elsewhere the doubled value may
/// differ by the final fixed-point step that truncation discards).
pub proof fn lemma_travel_linear_in_rotation<T: RotarySensor>(w: TrackingWheel<T>, rotation: int)
    requires
        w.wf(),
        (rotation * w.gearing_val() * w.wheel_diameter) % (TWO_SCALE_SQ as int) == 0,
    ensures
        w.travel_of(2 * rotation) == 2 * w.travel_of(rotation),
{
    let k = TWO_SCALE_SQ as int;
    let p = rotation * w.gearing_val() * (w.wheel_diameter as int);
    let m = p / k;
    vstd::arithmetic::div_mod::lemma_fundamental_div_mod(p, k);
    assert(p == m * k) by (nonlinear_arith)
        requires
            p == k * m + p % k,
            p % k == 0,
    ;
    crate::fixed::lemma_tdiv_multiple(m, k);
    assert(2 * rotation * w.gearing_val() * (w.wheel_diameter as int) == (2 * m) * k)
        by (nonlinear_arith)
        requires
            p == rotation * w.gearing_val() * (w.wheel_diameter as int),
            p == m * k,
    ;
    crate::fixed::lemma_tdiv_multiple(2 * m, k);
}

/// Law: wheel travel is linear in sensor rotation, for every rotation and
/// well-formed geometry: doubling the raw rotation gives twice the reported
/// distance to within one fixed-point step (the step that truncating the
/// conversion's division may discard).
pub proof fn lemma_travel_linear_within_one_step<T: RotarySensor>(
    w: TrackingWheel<T>,
    rotation: int,
)
    requires
        w.wf(),
    ensures
        mag(w.travel_of(2 * rotation) - 2 * w.travel_of(rotation)) <= 1,
{
    let p = rotation * w.gearing_val() * (w.wheel_diameter as int);
    assert(2 * rotation * w.gearing_val() * (w.wheel_diameter as int) == 2 * p)
        by (nonlinear_arith)
        requires
            p == rotation * w.gearing_val() * (w.wheel_diameter as int),
    ;
    crate::fixed::lemma_tdiv_double(p, TWO_SCALE_SQ as int);
}

/// The abstract tracking contract: what any pose estimator promises the
/// control loop. Each estimator defines the specification functions below;
/// the executable operations are tied to them exactly, and one step of
/// `update` applies `step_outcome` to the observed state.
pub trait Tracking: Sized {
    /// The estimator's internal invariant.
    spec fn wf(&self) -> bool;

    /// The currently stored position, as a coordinate pair.
    spec fn position_spec(&self) -> (int, int);

    /// What reading the cumulative forward travel returns in the current state.
    spec fn forward_result(&self) -> Result<int, TrackingError>;

    /// What reading the fused heading returns in the current state.
    spec fn heading_result(&self) -> Result<int, TrackingError>;

    /// The forward travel recorded by the most recent step.
    spec fn prev_forward_spec(&self) -> int;

    /// The heading recorded by the most recent step.
    spec fn prev_heading_spec(&self) -> int;

    /// Cumulative average linear distance traveled by the drivetrain since
    /// construction (not since the last call).
    fn forward_travel(&self) -> (r: Result<i64, TrackingError>)
        requires
            self.wf(),
        ensures
            match r {
                Ok(v) => self.forward_result() == Ok::<int, TrackingError>(v as int),
                Err(e) => self.forward_result() == Err::<int, TrackingError>(e),
            },
    ;

    /// The current fused heading in fixed-point radians.
    fn heading(&self) -> (r: Result<i64, TrackingError>)
        requires
            self.wf(),
        ensures
            match r {
                Ok(v) => self.heading_result() == Ok::<int, TrackingError>(v as int),
                Err(e) => self.heading_result() == Err::<int, TrackingError>(e),
            },
    ;

    /// Re-zero the reported heading to `heading`, without disturbing the
    /// internal fusion state: immediately afterwards the reported heading is
    /// exactly `heading`, and everything else reads as before.
    fn set_heading(&mut self, heading: i64) -> (r: Result<(), TrackingError>)
        requires
            old(self).wf(),
            -HEADING_LIMIT <= heading <= HEADING_LIMIT,
        ensures
            match r {
                Ok(()) => final(self).wf() && final(self).heading_result() == Ok::<
                    int,
                    TrackingError,
                >(heading as int) && final(self).position_spec() == old(self).position_spec()
                    && final(self).forward_result() == old(self).forward_result()
                    && final(self).prev_forward_spec() == old(self).prev_forward_spec()
                    && final(self).prev_heading_spec() == old(self).prev_heading_spec(),
                Err(e) => *final(self) == *old(self) && old(self).heading_result() == Err::<
                    int,
                    TrackingError,
                >(e),
            },
    ;

    /// The current estimated location.
    fn position(&self) -> (p: Vec2)
        requires
            self.wf(),
        ensures
            (p.x as int, p.y as int) == self.position_spec(),
    ;

    /// Seed the estimated location with a known pose.
    fn set_position(&mut self, position: Vec2)
        requires
            old(self).wf(),
        ensures
            final(self).wf(),
            final(self).position_spec() == (position.x as int, position.y as int),
            final(self).heading_result() == old(self).heading_result(),
            final(self).forward_result() == old(self).forward_result(),
            final(self).prev_forward_spec() == old(self).prev_forward_spec(),
            final(self).prev_heading_spec() == old(self).prev_heading_spec(),
    ;

    /// Perform one integration step: read the sensors, compute the travel and
    /// heading deltas since the last step, and add the arc-approximated
    /// displacement to the position. On an error nothing is changed.
    fn update(&mut self) -> (r: Result<(), TrackingError>)
        requires
            old(self).wf(),
        ensures
            match r {
                Ok(()) => final(self).wf() && step_outcome(
                    old(self).position_spec(),
                    old(self).prev_forward_spec(),
                    old(self).prev_heading_spec(),
                    old(self).forward_result(),
                    old(self).heading_result(),
                ) == Ok::<(int, int, int, int), TrackingError>(
                    (
                        final(self).position_spec().0,
                        final(self).position_spec().1,
                        final(self).prev_forward_spec(),
                        final(self).prev_heading_spec(),
                    ),
                ) && final(self).forward_result() == old(self).forward_result()
                    && final(self).heading_result() == old(self).heading_result(),
                Err(e) => *final(self) == *old(self) && step_outcome(
                    old(self).position_spec(),
                    old(self).prev_forward_spec(),
                    old(self).prev_heading_spec(),
                    old(self).forward_result(),
                    old(self).heading_result(),
                ) == Err::<(int, int, int, int), TrackingError>(e),
            },
    ;
}

/// The stateful pose estimator for a two-parallel-wheel drivetrain with an
/// optional gyroscope.
pub struct ParallelWheelTracking<T: RotarySensor, U: RotarySensor, V: Gyro> {
    position: Vec2,
    left_wheel: TrackingWheel<T>,
    right_wheel: TrackingWheel<U>,
    gyro: Option<V>,
    heading_offset: i64,
    prev_forward_travel: i64,
    prev_heading: i64,
}

impl<T: RotarySensor, U: RotarySensor, V: Gyro> ParallelWheelTracking<T, U, V> {
    /// The left wheel, as constructed.
    pub closed spec fn left_wheel_view(&self) -> TrackingWheel<T> {
        self.left_wheel
    }

    /// The right wheel, as constructed.
    pub closed spec fn right_wheel_view(&self) -> TrackingWheel<U> {
        self.right_wheel
    }

    /// The gyroscope slot, as constructed.
    pub closed spec fn gyro_view(&self) -> Option<V> {
        self.gyro
    }

    /// The constant added to the wrapped fused heading before reporting.
    pub closed spec fn heading_offset_spec(&self) -> int {
        self.heading_offset as int
    }

    /// What the left wheel's travel read returns.
    pub open spec fn left_travel(&self) -> Result<int, TrackingError> {
        self.left_wheel_view().travel_spec()
    }

    /// What the right wheel's travel read returns.
    pub open spec fn right_travel(&self) -> Result<int, TrackingError> {
        self.right_wheel_view().travel_spec()
    }

    /// Effective distance between the wheel contact lines: the sum of the
    /// magnitudes of the two centerline offsets.
    pub open spec fn track_width_spec(&self) -> int {
        mag(self.left_wheel_view().offset as int) + mag(self.right_wheel_view().offset as int)
    }

    /// What the gyroscope read returns: `None` when no gyroscope is
    /// configured or when the configured one faults — the two states that
    /// share the kinematic fallback.
    pub open spec fn gyro_reading(&self) -> Option<int> {
        match self.gyro_view() {
            Some(g) => g.heading_spec(),
            None => None,
        }
    }

    /// Whether a gyroscope is configured at all.
    pub open spec fn has_gyro(&self) -> bool {
        self.gyro_view() is Some
    }

    /// What the kinematic heading estimate returns in the current state.
    pub open spec fn kinematic_result(&self) -> Result<int, TrackingError> {
        match (self.left_travel(), self.right_travel()) {
            (Ok(l), Ok(r)) => Ok(kinematic_formula(l, r, self.track_width_spec())),
            (Err(e), _) => Err(e),
            (_, Err(e)) => Err(e),
        }
    }

    /// The fused heading before offset and wrapping: the gyroscope when it
    /// answers, the kinematic estimate otherwise.
    pub open spec fn fused_result(&self) -> Result<int, TrackingError> {
        match self.gyro_reading() {
            Some(h) => Ok(h),
            None => self.kinematic_result(),
        }
    }

    /// A pose estimator starting from `origin` with the given reported
    /// heading, owning the two wheels and the optional gyroscope.
    pub fn new(
        origin: Vec2,
        heading: i64,
        left_wheel: TrackingWheel<T>,
        right_wheel: TrackingWheel<U>,
        gyro: Option<V>,
    ) -> (est: Self)
        requires
            -HEADING_LIMIT <= heading <= HEADING_LIMIT,
            left_wheel.wf(),
            right_wheel.wf(),
            mag(left_wheel.offset as int) + mag(right_wheel.offset as int)
                >= TRACK_WIDTH_MIN as int,
        ensures
            est.wf(),
            est.position_spec() == (origin.x as int, origin.y as int),
            est.left_wheel_view() == left_wheel,
            est.right_wheel_view() == right_wheel,
            est.gyro_view() == gyro,
            est.heading_offset_spec() == heading as int,
            est.prev_forward_spec() == 0,
            est.prev_heading_spec() == 0,
    {
        ParallelWheelTracking {
            position: origin,
            left_wheel,
            right_wheel,
            gyro,
            heading_offset: heading,
            prev_forward_travel: 0,
            prev_heading: 0,
        }
    }

    /// Effective distance between the two wheel contact lines.
    fn track_width(&self) -> (w: i64)
        requires
            self.wf(),
        ensures
            w as int == self.track_width_spec(),
            TRACK_WIDTH_MIN <= w <= 2 * OFFSET_LIMIT,
    {
        let lo: i64 = if self.left_wheel.offset < 0 {
            -self.left_wheel.offset
        } else {
            self.left_wheel.offset
        };
        let ro: i64 = if self.right_wheel.offset < 0 {
            -self.right_wheel.offset
        } else {
            self.right_wheel.offset
        };
        lo + ro
    }

    /// The kinematic heading estimate, wrapped into one turn.
    fn kinematic_wrapped(&self) -> (r: Result<i64, TrackingError>)
        requires
            self.wf(),
        ensures
            match r {
                Ok(w) => self.kinematic_result() is Ok && w as int == wrap_angle_spec(
                    self.kinematic_result()->Ok_0,
                ) && -HALF_TURN <= w < HALF_TURN,
                Err(e) => self.kinematic_result() == Err::<int, TrackingError>(e),
            },
    {
        let l = match self.left_wheel.travel() {
            Ok(v) => v,
            Err(e) => {
                return Err(e);
            },
        };
        let r = match self.right_wheel.travel() {
            Ok(v) => v,
            Err(e) => {
                return Err(e);
            },
        };
        let tw = self.track_width();
        let num: i128 = (r - l) as i128 * SCALE as i128;
        proof {
            lemma_mul_mag_bound(r - l, SCALE as int, 2 * TRAVEL_LIMIT as int, SCALE as int);
            lemma_tdiv_bound(
                (r - l) * SCALE,
                tw as int,
                2 * (TRAVEL_LIMIT as int) * (SCALE as int),
                TRACK_WIDTH_MIN as int,
            );
        }
        let q = crate::fixed::div_trunc(num, tw as i128);
        Ok(crate::fixed::wrap_angle(q as i64))
    }

    /// The fused heading, wrapped into one turn: the gyroscope when it
    /// answers, the kinematic estimate otherwise.
    fn fused_wrapped(&self) -> (r: Result<i64, TrackingError>)
        requires
            self.wf(),
        ensures
            match r {
                Ok(w) => self.fused_result() is Ok && w as int == wrap_angle_spec(
                    self.fused_result()->Ok_0,
                ) && -HALF_TURN <= w < HALF_TURN,
                Err(e) => self.fused_result() == Err::<int, TrackingError>(e),
            },
    {
        match &self.gyro {
            Some(g) => match g.heading() {
                Some(h) => Ok(crate::fixed::wrap_angle(h)),
                None => self.kinematic_wrapped(),
            },
            None => self.kinematic_wrapped(),
        }
    }
}

impl<T: RotarySensor, U: RotarySensor, V: Gyro> Tracking for ParallelWheelTracking<T, U, V> {
    open spec fn wf(&self) -> bool {
        &&& self.left_wheel_view().wf()
        &&& self.right_wheel_view().wf()
        &&& self.track_width_spec() >= TRACK_WIDTH_MIN as int
        &&& mag(self.heading_offset_spec()) <= OFFSET_BOUND as int
        &&& mag(self.prev_forward_spec()) <= TRAVEL_LIMIT as int
        &&& mag(self.prev_heading_spec()) <= HEADING_BOUND as int
    }

    closed spec fn position_spec(&self) -> (int, int) {
        (self.position.x as int, self.position.y as int)
    }

    open spec fn forward_result(&self) -> Result<int, TrackingError> {
        match (self.left_travel(), self.right_travel()) {
            (Ok(l), Ok(r)) => Ok(tdiv(l + r, 2)),
            (Err(e), _) => Err(e),
            (_, Err(e)) => Err(e),
        }
    }

    open spec fn heading_result(&self) -> Result<int, TrackingError> {
        match self.fused_result() {
            Ok(f) => Ok(self.heading_offset_spec() + wrap_angle_spec(f)),
            Err(e) => Err(e),
        }
    }

    closed spec fn prev_forward_spec(&self) -> int {
        self.prev_forward_travel as int
    }

    closed spec fn prev_heading_spec(&self) -> int {
        self.prev_heading as int
    }

    fn forward_travel(&self) -> (r: Result<i64, TrackingError>) {
        let l = match self.left_wheel.travel() {
            Ok(v) => v,
            Err(e) => {
                return Err(e);
            },
        };
        let r = match self.right_wheel.travel() {
            Ok(v) => v,
            Err(e) => {
                return Err(e);
            },
        };
        proof {
            lemma_tdiv_bound(l + r, 2, 2 * TRAVEL_LIMIT as int, 2);
        }
        let q = crate::fixed::div_trunc(l as i128 + r as i128, 2);
        Ok(q as i64)
    }

    fn heading(&self) -> (r: Result<i64, TrackingError>) {
        match self.fused_wrapped() {
            Ok(w) => Ok(self.heading_offset + w),
            Err(e) => Err(e),
        }
    }

    fn set_heading(&mut self, heading: i64) -> (r: Result<(), TrackingError>)
        ensures
            final(self).left_wheel_view() == old(self).left_wheel_view(),
            final(self).right_wheel_view() == old(self).right_wheel_view(),
            final(self).gyro_view() == old(self).gyro_view(),
    {
        match self.fused_wrapped() {
            Ok(w) => {
                self.heading_offset = heading - w;
                Ok(())
            },
            Err(e) => Err(e),
        }
    }

    fn position(&self) -> (p: Vec2) {
        self.position
    }

    fn set_position(&mut self, position: Vec2)
        ensures
            final(self).left_wheel_view() == old(self).left_wheel_view(),
            final(self).right_wheel_view() == old(self).right_wheel_view(),
            final(self).gyro_view() == old(self).gyro_view(),
            final(self).heading_offset_spec() == old(self).heading_offset_spec(),
    {
        self.position = position;
    }

    fn update(&mut self) -> (r: Result<(), TrackingError>)
        ensures
            final(self).left_wheel_view() == old(self).left_wheel_view(),
            final(self).right_wheel_view() == old(self).right_wheel_view(),
            final(self).gyro_view() == old(self).gyro_view(),
            final(self).heading_offset_spec() == old(self).heading_offset_spec(),
    {
        let ft = match self.forward_travel() {
            Ok(v) => v,
            Err(e) => {
                return Err(e);
            },
        };
        let h = match self.heading() {
            Ok(v) => v,
            Err(e) => {
                return Err(e);
            },
        };
        proof {
            let lraw = self.left_wheel.sensor.rotation_spec()->Some_0;
            let rraw = self.right_wheel.sensor.rotation_spec()->Some_0;
            lemma_travel_bound(self.left_wheel, lraw);
            lemma_travel_bound(self.right_wheel, rraw);
            lemma_tdiv_bound(
                self.left_wheel.travel_of(lraw) + self.right_wheel.travel_of(rraw),
                2,
                2 * TRAVEL_LIMIT as int,
                2,
            );
            lemma_wrap_bound(self.fused_result()->Ok_0);
        }
        let dt: i64 = ft - self.prev_forward_travel;
        let dh: i64 = h - self.prev_heading;
        let chord: i64;
        let dir: i64;
        if -1 <= dh && dh <= 1 {
            chord = dt;
            dir = h;
        } else {
            let half_dh = crate::fixed::div_trunc_64(dh, 2);
            let sv = crate::fixed::sin_fx(half_dh);
            proof {
                lemma_mul_mag_bound(
                    2 * dt,
                    sv as int,
                    4 * TRAVEL_LIMIT as int,
                    crate::fixed::SIN_MAX as int,
                );
            }
            let num: i128 = 2 * dt as i128 * sv as i128;
            let q = crate::fixed::div_trunc(num, dh as i128);
            if q > POLAR_MAGNITUDE_MAX as i128 || q < -POLAR_MAGNITUDE_MAX as i128 {
                return Err(TrackingError::OutOfRange);
            }
            chord = q as i64;
            dir = self.prev_heading + half_dh;
        }
        let disp = Vec2::from_polar(chord, dir);
        let nx: i128 = self.position.x as i128 + disp.x as i128;
        let ny: i128 = self.position.y as i128 + disp.y as i128;
        if nx > i64::MAX as i128 || nx < i64::MIN as i128 || ny > i64::MAX as i128 || ny
            < i64::MIN as i128 {
            return Err(TrackingError::OutOfRange);
        }
        self.position = Vec2 { x: nx as i64, y: ny as i64 };
        self.prev_forward_travel = ft;
        self.prev_heading = h;
        Ok(())
    }
}

/// Law: the drivetrain's forward travel is the arithmetic mean of the two
/// wheels' linear travels (in fixed point: their sum, halved with truncation).
pub proof fn lemma_forward_travel_is_mean<T: RotarySensor, U: RotarySensor, V: Gyro>(
    est: ParallelWheelTracking<T, U, V>,
    l: int,
    r: int,
)
    requires
        est.left_travel() == Ok::<int, TrackingError>(l),
        est.right_travel() == Ok::<int, TrackingError>(r),
    ensures
        est.forward_result() == Ok::<int, TrackingError>(tdiv(l + r, 2)),
{
}

/// Law: without a gyroscope reading, the reported heading is the offset plus
/// the wrapped differential-drive estimate over the two wheels' travels.
pub proof fn lemma_kinematic_heading<T: RotarySensor, U: RotarySensor, V: Gyro>(
    est: ParallelWheelTracking<T, U, V>,
    l: int,
    r: int,
)
    requires
        est.gyro_reading() is None,
        est.left_travel() == Ok::<int, TrackingError>(l),
        est.right_travel() == Ok::<int, TrackingError>(r),
    ensures
        est.heading_result() == Ok::<int, TrackingError>(
            est.heading_offset_spec() + wrap_angle_spec(
                kinematic_formula(l, r, est.track_width_spec()),
            ),
        ),
{
}

/// Law: a gyroscope that faults on every read leaves the reported heading
/// numerically identical to that of the same estimator with no gyroscope
/// configured at all.
pub proof fn lemma_gyro_fault_falls_back<T: RotarySensor, U: RotarySensor, V: Gyro>(
    with_gyro: ParallelWheelTracking<T, U, V>,
    without_gyro: ParallelWheelTracking<T, U, V>,
)
    requires
        with_gyro.gyro_reading() is None,
        !without_gyro.has_gyro(),
        with_gyro.left_wheel_view() == without_gyro.left_wheel_view(),
        with_gyro.right_wheel_view() == without_gyro.right_wheel_view(),
        with_gyro.heading_offset_spec() == without_gyro.heading_offset_spec(),
    ensures
        with_gyro.heading_result() == without_gyro.heading_result(),
{
}

} // verus!
