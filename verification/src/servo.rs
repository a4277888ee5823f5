//! Position encoding for the pan servo that carries the distance sensor.
//!
//! A servo is commanded by a periodic pulse; the pulse width picks the angle.
//! The smallest angle corresponds to a 1 ms pulse and the largest to a 2 ms
//! pulse, so a position is stored as the number of microseconds to add on top
//! of the fixed 1 ms minimum.  Emitting the pulses is the caller's concern.

use vstd::prelude::*;

verus! {

/// Span of the adjustable part of the servo pulse, in microseconds.
pub const SERVO_SPAN_US: u32 = 1000;

/// Degrees of travel that the full pulse span covers.
pub const SERVO_RANGE_DEGREES: u32 = 180;

/// A servo position: microseconds of pulse width above the 1 ms minimum.
#[derive(Clone, Copy, Debug, PartialEq, Eq, Structural)]
pub struct ServoPhase {
    /// From 0 to 1000, equivalent to the added pulse width in microseconds.
    pub value: u32,
}

impl ServoPhase {
    /// Converts an angle in degrees to the pulse width that commands it,
    /// scaling linearly over the 180-degree range with truncating division.
    pub fn from_angle(angle: u8) -> (phase: ServoPhase)
        ensures
            phase.value == (angle * SERVO_SPAN_US) / (SERVO_RANGE_DEGREES as int),
    {
        ServoPhase { value: ((angle as u32) * SERVO_SPAN_US) / SERVO_RANGE_DEGREES }
    }
}

} // verus!
