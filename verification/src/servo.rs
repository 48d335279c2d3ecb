//! Mapping from a joint angle to a servo pulse width.
//!
//! A servo is driven by a pulse whose duration encodes the commanded angle:
//! nine degrees of rotation per hundred microseconds.  Each servo carries its
//! own calibration: the hardware pulse bounds, the pulse that corresponds to
//! zero degrees, and whether the horn is mounted so that a growing angle
//! shortens the pulse.  Angles are whole degrees; the mapping is a pure
//! function of the angle and the calibration.

use vstd::prelude::*;
use vstd::arithmetic::div_mod::lemma_div_is_ordered;
use vstd::arithmetic::div_mod::lemma_div_pos_is_pos;

verus! {

/// Calibration of one actuator: pulse bounds in microseconds, the pulse at
/// zero degrees, and the mounting orientation.  Callers are expected to
/// supply `min_micros <= max_micros`; construction stores the values
/// verbatim.
#[derive(Clone, Copy, PartialEq, Eq, Structural, Debug)]
pub struct Servo {
    pub min_micros: u16,
    pub max_micros: u16,
    pub zero_degrees: i16,
    pub reversed: bool,
}

/// The unclamped pulse offset for an angle: `100/9` microseconds per degree,
/// rounded to the nearest whole microsecond, halves away from zero.  (Since
/// `9` is odd, `100 * d / 9` never lands exactly on a half, so the
/// tie-breaking direction never matters.)
pub open spec fn scaled_micros(degrees: int) -> int {
    if degrees >= 0 {
        (200 * degrees + 9) / 18
    } else {
        -((200 * (-degrees) + 9) / 18)
    }
}

/// Biases a raw pulse offset by the zero point, floors it at zero (a pulse
/// cannot be negative), then clamps it into the hardware bounds: first down
/// to `max_micros`, then up to `min_micros`.
pub open spec fn clamped_micros(servo: Servo, raw: int) -> int {
    let biased = raw + servo.zero_degrees;
    let floored = if biased >= 0 { biased } else { 0 };
    let capped = if floored <= servo.max_micros { floored } else { servo.max_micros as int };
    if capped >= servo.min_micros {
        capped
    } else {
        servo.min_micros as int
    }
}

/// The full angle-to-pulse mapping: scale the angle, reverse it if the horn
/// is mounted backwards, bias and clamp.
pub open spec fn pulse_micros(servo: Servo, degrees: int) -> int {
    if servo.reversed {
        clamped_micros(servo, -scaled_micros(degrees))
    } else {
        clamped_micros(servo, scaled_micros(degrees))
    }
}

impl Servo {
    /// Stores the calibration verbatim.  `min <= max` is the documented
    /// contract on every caller; nothing is validated beyond it.
    pub fn new(min: u16, max: u16, zero: i16, reversed: bool) -> (servo: Servo)
        requires
            min <= max,
        ensures
            servo == (Servo { min_micros: min, max_micros: max, zero_degrees: zero, reversed: reversed }),
    {
        Servo { min_micros: min, max_micros: max, zero_degrees: zero, reversed: reversed }
    }

    /// Converts a joint angle in whole degrees to the clamped pulse width in
    /// microseconds that commands it.
    pub fn degrees_to_micros(&self, degrees: i16) -> (micros: u16)
        ensures
            micros == pulse_micros(*self, degrees as int),
    {
        let magnitude: u32 = if degrees < 0 {
            (-(degrees as i32)) as u32
        } else {
            degrees as u32
        };
        let rounded: u32 = (200 * magnitude + 9) / 18;
        proof {
            lemma_div_is_ordered(200 * (magnitude as int) + 9, 6553609, 18);
        }
        let offset: i32 = if (degrees < 0) == self.reversed {
            rounded as i32
        } else {
            -(rounded as i32)
        };
        let biased: i32 = offset + (self.zero_degrees as i32);
        let floored: i32 = if biased >= 0 { biased } else { 0 };
        let capped: i32 = if floored <= self.max_micros as i32 {
            floored
        } else {
            self.max_micros as i32
        };
        let clamped: i32 = if capped >= self.min_micros as i32 {
            capped
        } else {
            self.min_micros as i32
        };
        clamped as u16
    }
}

/// The scaling step keeps the order of angles: a larger angle never yields a
/// smaller unclamped offset.
pub proof fn lemma_scaled_micros_monotone(d1: int, d2: int)
    requires
        d1 <= d2,
    ensures
        scaled_micros(d1) <= scaled_micros(d2),
{
    if 0 <= d1 {
        lemma_div_is_ordered(200 * d1 + 9, 200 * d2 + 9, 18);
    } else if d2 < 0 {
        lemma_div_is_ordered(200 * (-d2) + 9, 200 * (-d1) + 9, 18);
    } else {
        lemma_div_pos_is_pos(200 * (-d1) + 9, 18);
        lemma_div_pos_is_pos(200 * d2 + 9, 18);
    }
}

/// Whatever the angle, the pulse ends inside the hardware bounds of a servo
/// whose calibration orders them.
pub proof fn lemma_pulse_micros_in_bounds(servo: Servo, degrees: int)
    requires
        servo.min_micros <= servo.max_micros,
    ensures
        servo.min_micros <= pulse_micros(servo, degrees) <= servo.max_micros,
{
}

/// The whole mapping is monotone in the angle: non-decreasing for a servo
/// mounted forwards, non-increasing for a reversed one, clamping included.
pub proof fn lemma_pulse_micros_monotone(servo: Servo, d1: int, d2: int)
    requires
        d1 <= d2,
    ensures
        !servo.reversed ==> pulse_micros(servo, d1) <= pulse_micros(servo, d2),
        servo.reversed ==> pulse_micros(servo, d2) <= pulse_micros(servo, d1),
{
    lemma_scaled_micros_monotone(d1, d2);
}

} // verus!
