//! Turning keys and the left stick into one movement intent per tick.

use vstd::prelude::*;
use crate::game::{Vec3, Stick, UNIT, filter_deadzone, filtered, past_deadzone};

verus! {

/// Which movement keys are held this tick.
#[derive(Clone, Copy, Debug, PartialEq, Eq, Structural)]
pub struct MoveKeys {
    /// W
    pub forward: bool,
    /// S
    pub back: bool,
    /// A
    pub left: bool,
    /// D
    pub right: bool,
}

/// One tick's movement request: how much to go forward and how much to strafe
/// right, in thousandths, and whether any input asked for movement at all.
#[derive(Clone, Copy, Debug, PartialEq, Eq, Structural)]
pub struct MoveIntent {
    pub forward: i64,
    pub strafe: i64,
    pub moved: bool,
}

/// Forward from the keys. W is checked first: with W and S both held, W wins.
pub open spec fn key_forward(k: MoveKeys) -> int {
    if k.forward {
        UNIT as int
    } else if k.back {
        -UNIT
    } else {
        0
    }
}

/// Strafe from the keys. A is checked first: with A and D both held, A wins.
pub open spec fn key_strafe(k: MoveKeys) -> int {
    if k.left {
        -UNIT
    } else if k.right {
        UNIT as int
    } else {
        0
    }
}

/// Some key or stick axis asks for movement.
pub open spec fn asks_to_move(k: MoveKeys, stick: Option<Stick>) -> bool {
    k.forward || k.back || k.left || k.right || (stick matches Some(s) && (past_deadzone(s.x)
        || past_deadzone(s.y)))
}

impl MoveIntent {
    /// Merges the keys and the left stick of the first gamepad. Stick axes inside
    /// the deadzone count as zero; the stick's x strafes and its y goes forward.
    pub fn from_input(keys: MoveKeys, left_stick: Option<Stick>) -> (r: MoveIntent)
        ensures
            r == intent_of(keys, left_stick),
            !r.moved ==> r.forward == 0 && r.strafe == 0,
    {
        let mut forward: i64 = 0;
        let mut strafe: i64 = 0;
        let mut moved = false;
        if keys.forward {
            forward = UNIT;
            moved = true;
        } else if keys.back {
            forward = -UNIT;
            moved = true;
        }
        if keys.left {
            strafe = -UNIT;
            moved = true;
        } else if keys.right {
            strafe = UNIT;
            moved = true;
        }
        if let Some(s) = left_stick {
            let x = filter_deadzone(s.x);
            let y = filter_deadzone(s.y);
            if x != 0 {
                strafe = strafe + x as i64;
                moved = true;
            }
            if y != 0 {
                forward = forward + y as i64;
                moved = true;
            }
        }
        MoveIntent { forward, strafe, moved }
    }

    /// The direction to move in the world, up to length, for a player facing
    /// `front`: forward along it and strafing along `front` crossed with world-up.
    /// `None` when nothing asked for movement or the request cancels out; the
    /// position then stays where it is.
    pub fn world_direction(&self, front: Vec3) -> (r: Option<Vec3>)
        requires
            front.is_direction(),
            -0x1_0000_0000 <= self.forward <= 0x1_0000_0000,
            -0x1_0000_0000 <= self.strafe <= 0x1_0000_0000,
        ensures
            !self.moved ==> r is None,
            self.moved ==> (r == if world_vector(*self, front) == (Vec3 { x: 0, y: 0, z: 0 }) {
                None
            } else {
                Some(world_vector(*self, front))
            }),
    {
        if !self.moved {
            return None;
        }
        proof {
            bound_product(front.x, self.forward);
            bound_product(front.y, self.forward);
            bound_product(front.z, self.forward);
            bound_product(front.x, self.strafe);
            bound_product(front.y, self.strafe);
        }
        let v = Vec3 {
            x: front.x * self.forward + front.y * self.strafe,
            y: front.y * self.forward - front.x * self.strafe,
            z: front.z * self.forward,
        };
        if v.x == 0 && v.y == 0 && v.z == 0 {
            None
        } else {
            Some(v)
        }
    }

    /// The direction to move on the ground plane, up to length, in the top-down
    /// view: strafing along x and forward along y, whatever the camera faces.
    /// `None` when nothing asked for movement or the request cancels out.
    pub fn plane_direction(&self) -> (r: Option<Vec3>)
        ensures
            !self.moved ==> r is None,
            self.moved ==> (r == if self.forward == 0 && self.strafe == 0 {
                None
            } else {
                Some(Vec3 { x: self.strafe, y: self.forward, z: 0 })
            }),
    {
        if !self.moved || (self.forward == 0 && self.strafe == 0) {
            None
        } else {
            Some(Vec3 { x: self.strafe, y: self.forward, z: 0 })
        }
    }
}

/// `forward` along `front` plus `strafe` along `front` crossed with world-up.
pub open spec fn world_vector(m: MoveIntent, front: Vec3) -> Vec3 {
    Vec3 {
        x: (front.x * m.forward + front.y * m.strafe) as i64,
        y: (front.y * m.forward - front.x * m.strafe) as i64,
        z: (front.z * m.forward) as i64,
    }
}

proof fn bound_product(a: i64, b: i64)
    requires
        -UNIT <= a <= UNIT,
        -0x1_0000_0000 <= b <= 0x1_0000_0000,
    ensures
        -0x1_0000_0000 * UNIT <= a * b <= 0x1_0000_0000 * UNIT,
{
    assert(-0x1_0000_0000 * UNIT <= a * b <= 0x1_0000_0000 * UNIT) by (nonlinear_arith)
        requires
            -UNIT <= a <= UNIT,
            -0x1_0000_0000 <= b <= 0x1_0000_0000,
    ;
}

/// The intent that keys and a stick give.
pub open spec fn intent_of(keys: MoveKeys, left_stick: Option<Stick>) -> MoveIntent {
    MoveIntent {
        forward: (key_forward(keys) + stick_part(left_stick, false)) as i64,
        strafe: (key_strafe(keys) + stick_part(left_stick, true)) as i64,
        moved: asks_to_move(keys, left_stick),
    }
}

/// With no key held and every stick axis inside the deadzone, nothing moves: the
/// intent is not flagged as moving, asks for no distance, and gives no direction.
pub proof fn resting_input_moves_nothing(keys: MoveKeys, left_stick: Option<Stick>)
    requires
        !keys.forward && !keys.back && !keys.left && !keys.right,
        left_stick matches Some(s) ==> !past_deadzone(s.x) && !past_deadzone(s.y),
    ensures
        !intent_of(keys, left_stick).moved,
        intent_of(keys, left_stick).forward == 0,
        intent_of(keys, left_stick).strafe == 0,
{
}

/// The stick's contribution to strafe (`x`) or forward (not `x`).
pub open spec fn stick_part(s: Option<Stick>, x: bool) -> int {
    match s {
        Some(st) => if x {
            filtered(st.x) as int
        } else {
            filtered(st.y) as int
        },
        None => 0,
    }
}

} // verus!
