//! One three-segment leg: coxa, femur and tibia, hanging from a hip point at
//! a corner of the body, with a commanded toe (foot) position.
//!
//! Positions live in the leg's local frame: `x` towards the right of the
//! robot, `y` towards the front, `z` towards the top.  Coordinates are kept
//! in whole micrometers, so every anchor, target and displacement is an exact
//! integer; a thousandth of a millimeter is far below any servo's resolution.
//! The trigonometric solve that turns a toe position into the three joint
//! angles works in floating point and lives with the unverified driver
//! around this crate; the leg's own bookkeeping below is exact.

use vstd::prelude::*;

verus! {

/// Length of the coxa segment, micrometers.
pub const COXA_LEN_UM: i32 = 23500;

/// Length of the femur segment, micrometers.
pub const FEMUR_LEN_UM: i32 = 38000;

/// Length of the tibia segment, micrometers.
pub const TIBIA_LEN_UM: i32 = 81000;

/// Horizontal displacement of the hip from the toe's canonical origin on
/// each horizontal axis: `(COXA_LEN_UM + FEMUR_LEN_UM) / sqrt(2)`, rounded
/// to the nearest micrometer.  With the coxa pointed out of the body corner
/// at 45 degrees, the femur horizontal and the tibia vertical, the hip sits
/// diagonally above the toe by exactly this much on `x` and `y`.
pub const HIP_OFFSET_UM: i32 = 43487;

/// A point in the leg's local frame, in micrometers.
#[derive(Clone, Copy, PartialEq, Eq, Structural, Debug)]
pub struct Point3D {
    pub x: i32,
    pub y: i32,
    pub z: i32,
}

/// The four mount corners of the body.  The corner fixes the hip anchor by
/// reflecting the canonical offset about the body's two horizontal axes.
#[derive(Clone, Copy, PartialEq, Eq, Structural, Debug)]
pub enum Position {
    FrontRight,
    FrontLeft,
    BackRight,
    BackLeft,
}

/// The hip anchor for a mount corner: the canonical diagonal offset with the
/// sign pattern of that corner, at tibia height.
pub open spec fn hip_point(leg_pos: Position) -> Point3D {
    match leg_pos {
        Position::FrontRight => Point3D {
            x: (-HIP_OFFSET_UM) as i32,
            y: (-HIP_OFFSET_UM) as i32,
            z: TIBIA_LEN_UM,
        },
        Position::FrontLeft => Point3D {
            x: HIP_OFFSET_UM,
            y: (-HIP_OFFSET_UM) as i32,
            z: TIBIA_LEN_UM,
        },
        Position::BackRight => Point3D {
            x: (-HIP_OFFSET_UM) as i32,
            y: HIP_OFFSET_UM,
            z: TIBIA_LEN_UM,
        },
        Position::BackLeft => Point3D { x: HIP_OFFSET_UM, y: HIP_OFFSET_UM, z: TIBIA_LEN_UM },
    }
}

/// A freshly mounted leg: hip anchored for its corner, toe at the canonical
/// origin (coxa at 45 degrees, femur horizontal, tibia vertical).
pub open spec fn initial_leg(leg_pos: Position) -> Leg {
    Leg { hip_pt: hip_point(leg_pos), toe_pt: Point3D { x: 0, y: 0, z: 0 } }
}

/// The same leg with its toe target replaced.
pub open spec fn with_toe_at(leg: Leg, x: i32, y: i32, z: i32) -> Leg {
    Leg { hip_pt: leg.hip_pt, toe_pt: Point3D { x: x, y: y, z: z } }
}

/// The same leg with its toe target shifted by a displacement.
pub open spec fn with_toe_moved(leg: Leg, dx: i32, dy: i32, dz: i32) -> Leg {
    Leg {
        hip_pt: leg.hip_pt,
        toe_pt: Point3D {
            x: (leg.toe_pt.x + dx) as i32,
            y: (leg.toe_pt.y + dy) as i32,
            z: (leg.toe_pt.z + dz) as i32,
        },
    }
}

/// A leg: a fixed hip anchor and a mutable toe target.  The hip is set once
/// from the mount corner and never moves; the toe is commanded absolutely or
/// relatively during operation.
#[derive(Clone, Copy, PartialEq, Eq, Structural, Debug)]
pub struct Leg {
    pub hip_pt: Point3D,
    pub toe_pt: Point3D,
}

impl Leg {
    /// Mounts a leg at the given corner, toe at the canonical origin.
    pub fn new(leg_pos: Position) -> (leg: Leg)
        ensures
            leg == initial_leg(leg_pos),
    {
        Leg {
            hip_pt: match leg_pos {
                Position::FrontRight => Point3D {
                    x: -HIP_OFFSET_UM,
                    y: -HIP_OFFSET_UM,
                    z: TIBIA_LEN_UM,
                },
                Position::FrontLeft => Point3D {
                    x: HIP_OFFSET_UM,
                    y: -HIP_OFFSET_UM,
                    z: TIBIA_LEN_UM,
                },
                Position::BackRight => Point3D {
                    x: -HIP_OFFSET_UM,
                    y: HIP_OFFSET_UM,
                    z: TIBIA_LEN_UM,
                },
                Position::BackLeft => Point3D {
                    x: HIP_OFFSET_UM,
                    y: HIP_OFFSET_UM,
                    z: TIBIA_LEN_UM,
                },
            },
            toe_pt: Point3D { x: 0, y: 0, z: 0 },
        }
    }

    /// Replaces the toe target absolutely.  No reachability check happens
    /// here; an out-of-reach target is resolved, clamped, only when angles
    /// are solved for.
    pub fn set_toe_point(&mut self, x: i32, y: i32, z: i32)
        ensures
            *final(self) == with_toe_at(*old(self), x, y, z),
    {
        self.toe_pt = Point3D { x: x, y: y, z: z };
    }

    /// Shifts the toe target by a displacement.
    pub fn move_toe_point(&mut self, dx: i32, dy: i32, dz: i32)
        requires
            i32::MIN <= old(self).toe_pt.x + dx <= i32::MAX,
            i32::MIN <= old(self).toe_pt.y + dy <= i32::MAX,
            i32::MIN <= old(self).toe_pt.z + dz <= i32::MAX,
        ensures
            *final(self) == with_toe_moved(*old(self), dx, dy, dz),
    {
        self.toe_pt = Point3D {
            x: self.toe_pt.x + dx,
            y: self.toe_pt.y + dy,
            z: self.toe_pt.z + dz,
        };
    }
}

/// Setting the toe and then shifting it lands exactly where setting it to
/// the summed coordinates would: a relative move is an absolute set of the
/// vector sum.
pub proof fn lemma_move_after_set(leg: Leg, x: i32, y: i32, z: i32, dx: i32, dy: i32, dz: i32)
    requires
        i32::MIN <= x + dx <= i32::MAX,
        i32::MIN <= y + dy <= i32::MAX,
        i32::MIN <= z + dz <= i32::MAX,
    ensures
        with_toe_moved(with_toe_at(leg, x, y, z), dx, dy, dz)
            == with_toe_at(leg, (x + dx) as i32, (y + dy) as i32, (z + dz) as i32),
{
}

/// Hip anchors of the front and back corner on the same side are mirror
/// images across the body's lateral axis: same `x`, same height, opposite
/// `y`.  (The angle symmetry this induces is resolved by the floating-point
/// solve outside this crate.)
pub proof fn lemma_hip_points_mirror()
    ensures
        hip_point(Position::BackRight) == (Point3D {
            x: hip_point(Position::FrontRight).x,
            y: (-hip_point(Position::FrontRight).y) as i32,
            z: hip_point(Position::FrontRight).z,
        }),
        hip_point(Position::BackLeft) == (Point3D {
            x: hip_point(Position::FrontLeft).x,
            y: (-hip_point(Position::FrontLeft).y) as i32,
            z: hip_point(Position::FrontLeft).z,
        }),
{
}

} // verus!
