//! Kinematics core for a four-legged walking robot.
//!
//! Each leg is a chain of three rigid segments (coxa, femur, tibia) hanging
//! from a hip point at one corner of the body.  The library keeps the leg and
//! servo state in exact integer units and pins down, in its contracts, the
//! geometry of the hip anchors, the toe-point bookkeeping, and the mapping
//! from joint angles to servo pulse widths.  The trigonometric solve that
//! turns a toe position into joint angles works in floating point and
//! therefore lives with the unverified driver around this crate.

use vstd::prelude::*;

pub mod leg;
pub mod math;
pub mod servo;

use crate::leg::Leg;
use crate::leg::Position;
use crate::leg::initial_leg;
use crate::servo::Servo;

verus! {

/// The whole robot: one leg per body corner and one servo per joint, three
/// joints per leg.  Legs and servos are independent value objects; a servo
/// at index `3 * l + j` drives joint `j` (body-coxa, coxa-femur,
/// femur-tibia) of leg `l`, in the order the legs stand in `legs`.
pub struct Spider {
    pub legs: [Leg; 4],
    pub servos: [Servo; 12],
}

impl Spider {
    /// Mounts the four legs at their corners, toes at the canonical origin,
    /// and records the calibration of the twelve servos of this machine.
    pub fn new() -> (spider: Spider)
        ensures
            spider.legs[0] == initial_leg(Position::FrontRight),
            spider.legs[1] == initial_leg(Position::FrontLeft),
            spider.legs[2] == initial_leg(Position::BackRight),
            spider.legs[3] == initial_leg(Position::BackLeft),
            spider.servos[0] == (Servo { min_micros: 1500, max_micros: 2500, zero_degrees: 1700, reversed: false }),
            spider.servos[1] == (Servo { min_micros: 1200, max_micros: 2600, zero_degrees: 2111, reversed: true }),
            spider.servos[2] == (Servo { min_micros: 1400, max_micros: 2500, zero_degrees: 900, reversed: false }),
            spider.servos[3] == (Servo { min_micros: 700, max_micros: 1700, zero_degrees: (-400) as i16, reversed: false }),
            spider.servos[4] == (Servo { min_micros: 500, max_micros: 1900, zero_degrees: 1045, reversed: false }),
            spider.servos[5] == (Servo { min_micros: 1300, max_micros: 2400, zero_degrees: 2800, reversed: true }),
            spider.servos[6] == (Servo { min_micros: 700, max_micros: 1700, zero_degrees: 1800, reversed: false }),
            spider.servos[7] == (Servo { min_micros: 700, max_micros: 2100, zero_degrees: 1189, reversed: false }),
            spider.servos[8] == (Servo { min_micros: 1500, max_micros: 2500, zero_degrees: 3100, reversed: true }),
            spider.servos[9] == (Servo { min_micros: 1400, max_micros: 2400, zero_degrees: 3500, reversed: false }),
            spider.servos[10] == (Servo { min_micros: 1000, max_micros: 2200, zero_degrees: 1600, reversed: true }),
            spider.servos[11] == (Servo { min_micros: 1100, max_micros: 2200, zero_degrees: 600, reversed: false }),
    {
        Spider {
            legs: [
                Leg::new(Position::FrontRight),
                Leg::new(Position::FrontLeft),
                Leg::new(Position::BackRight),
                Leg::new(Position::BackLeft),
            ],
            // Calibration of one particular machine; replace the values to
            // match another robot's servo mounting.
            servos: [
                Servo::new(1500, 2500, 1700, false),
                Servo::new(1200, 2600, 2111, true),
                Servo::new(1400, 2500, 900, false),
                Servo::new(700, 1700, -400, false),
                Servo::new(500, 1900, 1045, false),
                Servo::new(1300, 2400, 2800, true),
                Servo::new(700, 1700, 1800, false),
                Servo::new(700, 2100, 1189, false),
                Servo::new(1500, 2500, 3100, true),
                Servo::new(1400, 2400, 3500, false),
                Servo::new(1000, 2200, 1600, true),
                Servo::new(1100, 2200, 600, false),
            ],
        }
    }
}

} // verus!
