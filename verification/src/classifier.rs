//! Motion classifier: one acceleration sample in, one fall event out.

use vstd::prelude::*;

verus! {

/// One reading of the accelerometer, each axis in milli-g.
#[derive(Clone, Copy, Debug, PartialEq, Eq, Structural)]
pub struct AccelerationSample {
    pub x: i32,
    pub y: i32,
    pub z: i32,
}

/// The classification of one sample: the device is falling, or it is not.
#[derive(Clone, Copy, Debug, PartialEq, Eq, Structural)]
pub enum FallEvent {
    Fall,
    Stop,
}

/// Squared magnitude of a sample, in milli-g squared.
pub open spec fn magnitude_sq(sample: AccelerationSample) -> int {
    sample.x * sample.x + sample.y * sample.y + sample.z * sample.z
}

/// A threshold given in g, in the squared milli-g units of `magnitude_sq`.
pub open spec fn threshold_sq(gees: u32) -> int {
    gees * 1_000_000
}

/// The event that a sample stands for under a threshold of `gees`.
pub open spec fn event_of(sample: AccelerationSample, gees: u32) -> FallEvent {
    if magnitude_sq(sample) > threshold_sq(gees) {
        FallEvent::Fall
    } else {
        FallEvent::Stop
    }
}

/// The event of one poll of the sensor: without a new sample the device
/// counts as not falling.
pub open spec fn event_of_reading(reading: Option<AccelerationSample>, gees: u32) -> FallEvent {
    match reading {
        Some(sample) => event_of(sample, gees),
        None => FallEvent::Stop,
    }
}

/// The square of one axis, which always fits 64 bits.
fn square(v: i32) -> (sq: u64)
    ensures
        sq == v * v,
        sq <= 0x4000_0000_0000_0000,
{
    let wide: i64 = v as i64;
    assert(0 <= wide * wide <= 0x4000_0000_0000_0000) by (nonlinear_arith)
        requires
            -0x8000_0000 <= wide <= 0x7fff_ffff,
    ;
    let sq: i64 = wide * wide;
    sq as u64
}

impl AccelerationSample {
    /// A sample from its three axes, in milli-g.
    pub fn new(x: i32, y: i32, z: i32) -> (sample: AccelerationSample)
        ensures
            sample == (AccelerationSample { x, y, z }),
    {
        AccelerationSample { x, y, z }
    }

    /// The squared magnitude `x*x + y*y + z*z`, without a square root.
    pub fn magnitude_sq(&self) -> (m: u64)
        ensures
            m == magnitude_sq(*self),
    {
        let xx: u64 = square(self.x);
        let yy: u64 = square(self.y);
        let zz: u64 = square(self.z);
        xx + yy + zz
    }
}

/// Classifies a sample: `Fall` if its squared magnitude is strictly above
/// `gees * 1_000_000`, `Stop` otherwise.
pub fn classify(sample: AccelerationSample, gees: u32) -> (event: FallEvent)
    ensures
        event == event_of(sample, gees),
{
    let threshold: u64 = (gees as u64) * 1_000_000;
    if sample.magnitude_sq() > threshold {
        FallEvent::Fall
    } else {
        FallEvent::Stop
    }
}

/// Classifies one poll of the sensor. The loop never waits for data: where
/// no new sample is ready the event is `Stop`.
pub fn classify_reading(reading: Option<AccelerationSample>, gees: u32) -> (event: FallEvent)
    ensures
        event == event_of_reading(reading, gees),
{
    match reading {
        Some(sample) => classify(sample, gees),
        None => FallEvent::Stop,
    }
}

/// The event of the manual trigger: the button reads low while pressed, and
/// a pressed button stands for a fall.
pub fn button_event(level_is_low: bool) -> (event: FallEvent)
    ensures
        event == (if level_is_low { FallEvent::Fall } else { FallEvent::Stop }),
{
    if level_is_low {
        FallEvent::Fall
    } else {
        FallEvent::Stop
    }
}

} // verus!
