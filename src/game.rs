//! The game's rules: flow between screens, movement, look angles and camera.

pub mod camera;
pub mod character;
pub mod flow;
pub mod movement;

use vstd::prelude::*;

verus! {

/// Fixed-point scale: one world unit, one degree or full stick travel is this many.
pub const UNIT: i64 = 1000;

/// Edge length of the player's cube: 100 world units.
pub const PLAYER_SIZE: i64 = 100000;

/// Stick deflection at or below which an axis counts as untouched: 0.15 of full travel.
pub const DEADZONE: i32 = 150;

/// Bound on coordinates handed to the camera and movement rules, far beyond any
/// level, so that their arithmetic stays within 64 bits.
pub const WORLD_LIMIT: i64 = 1000000000000000;

/// A point or direction in world space, in thousandths of a world unit. World-up is +z.
#[derive(Clone, Copy, Debug, PartialEq, Eq, Structural)]
pub struct Vec3 {
    pub x: i64,
    pub y: i64,
    pub z: i64,
}

/// A point on the ground plane, in thousandths of a world unit.
#[derive(Clone, Copy, Debug, PartialEq, Eq, Structural)]
pub struct Vec2 {
    pub x: i64,
    pub y: i64,
}

impl Vec3 {
    /// Each coordinate lies within `[-bound, bound]`.
    pub open spec fn within(self, bound: int) -> bool {
        -bound <= self.x <= bound && -bound <= self.y <= bound && -bound <= self.z <= bound
    }

    /// A direction of length one (`UNIT`), rounded: each coordinate is at most `UNIT` in size.
    pub open spec fn is_direction(self) -> bool {
        self.within(UNIT as int)
    }
}

/// Deflection of one analog stick, each axis in thousandths of full travel.
#[derive(Clone, Copy, Debug, PartialEq, Eq, Structural)]
pub struct Stick {
    pub x: i32,
    pub y: i32,
}

/// The axis is deflected past the deadzone.
pub open spec fn past_deadzone(v: i32) -> bool {
    v > DEADZONE || v < -DEADZONE
}

/// The axis value with deflections inside the deadzone read as zero.
pub open spec fn filtered(v: i32) -> i32 {
    if past_deadzone(v) {
        v
    } else {
        0
    }
}

/// Reads an axis, treating a deflection inside the deadzone as zero so that a
/// resting stick does not drift.
pub fn filter_deadzone(v: i32) -> (r: i32)
    ensures
        r == filtered(v),
{
    if v > DEADZONE || v < -DEADZONE {
        v
    } else {
        0
    }
}

/// Integer division rounded toward zero, as Rust's `/` does.
pub open spec fn div_toward_zero(a: int, d: int) -> int {
    if a >= 0 {
        a / d
    } else {
        -((-a) / d)
    }
}

/// Remainder with the sign of the dividend, as Rust's `%` does.
pub open spec fn rem_toward_zero(a: int, d: int) -> int {
    if a >= 0 {
        a % d
    } else {
        -((-a) % d)
    }
}

/// `v` limited to `[lo, hi]`.
pub open spec fn clamp(v: int, lo: int, hi: int) -> int {
    if v < lo {
        lo
    } else if v > hi {
        hi
    } else {
        v
    }
}

} // verus!
