//! Device capability contracts: a rotary-position source and an absolute
//! heading source, each of which may fault on a read, plus deterministic
//! simulated devices for exercising the estimator without hardware.

use vstd::prelude::*;

verus! {

/// A source of rotary position: each read returns the shaft's rotation since
/// a fixed reference, in fixed-point radians, or `None` on a sensor fault.
pub trait RotarySensor: Sized {
    /// What a read returns in the sensor's current state (`None` is a fault).
    spec fn rotation_spec(&self) -> Option<int>;

    /// Read the current rotation.
    fn rotation(&self) -> (r: Option<i64>)
        ensures
            match r {
                Some(v) => self.rotation_spec() == Some(v as int),
                None => self.rotation_spec() is None,
            },
    ;
}

/// A source of absolute heading: each read returns the device's heading in
/// fixed-point radians, or `None` on a sensor fault.
pub trait Gyro: Sized {
    /// What a read returns in the gyroscope's current state (`None` is a fault).
    spec fn heading_spec(&self) -> Option<int>;

    /// Read the current heading.
    fn heading(&self) -> (r: Option<i64>)
        ensures
            match r {
                Some(v) => self.heading_spec() == Some(v as int),
                None => self.heading_spec() is None,
            },
    ;
}

/// A deterministic rotary sensor: reports a fixed rotation, or faults.
#[derive(Clone, Copy, PartialEq, Eq, Structural, Debug)]
pub struct SimRotary {
    /// The rotation every successful read reports.
    pub reading: i64,
    /// Whether reads succeed at all.
    pub healthy: bool,
}

impl SimRotary {
    /// A sensor whose every read reports `reading`.
    pub fn new(reading: i64) -> (s: SimRotary)
        ensures
            s == (SimRotary { reading, healthy: true }),
    {
        SimRotary { reading, healthy: true }
    }

    /// A sensor whose every read faults.
    pub fn faulty() -> (s: SimRotary)
        ensures
            s == (SimRotary { reading: 0, healthy: false }),
    {
        SimRotary { reading: 0, healthy: false }
    }
}

impl RotarySensor for SimRotary {
    open spec fn rotation_spec(&self) -> Option<int> {
        if self.healthy {
            Some(self.reading as int)
        } else {
            None
        }
    }

    fn rotation(&self) -> (r: Option<i64>) {
        if self.healthy {
            Some(self.reading)
        } else {
            None
        }
    }
}

/// A deterministic gyroscope: reports a fixed heading, or faults.
#[derive(Clone, Copy, PartialEq, Eq, Structural, Debug)]
pub struct SimGyro {
    /// The heading every successful read reports.
    pub reading: i64,
    /// Whether reads succeed at all.
    pub healthy: bool,
}

impl SimGyro {
    /// A gyroscope whose every read reports `reading`.
    pub fn new(reading: i64) -> (g: SimGyro)
        ensures
            g == (SimGyro { reading, healthy: true }),
    {
        SimGyro { reading, healthy: true }
    }

    /// A gyroscope whose every read faults.
    pub fn faulty() -> (g: SimGyro)
        ensures
            g == (SimGyro { reading: 0, healthy: false }),
    {
        SimGyro { reading: 0, healthy: false }
    }
}

impl Gyro for SimGyro {
    open spec fn heading_spec(&self) -> Option<int> {
        if self.healthy {
            Some(self.reading as int)
        } else {
            None
        }
    }

    fn heading(&self) -> (r: Option<i64>) {
        if self.healthy {
            Some(self.reading)
        } else {
            None
        }
    }
}

} // verus!
