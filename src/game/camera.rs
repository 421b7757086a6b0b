//! Look angles, the forward direction and where the camera stands.

use vstd::prelude::*;
use crate::game::{
    Vec2, Vec3, Stick, UNIT, PLAYER_SIZE, WORLD_LIMIT, filter_deadzone, filtered, clamp,
    div_toward_zero, rem_toward_zero,
};

verus! {

/// One full turn: 360 degrees.
pub const FULL_TURN: i64 = 360000;

/// Pitch stops this far from straight up or down (89 degrees) to keep the camera
/// from flipping over at the poles.
pub const PITCH_LIMIT: i64 = 89000;

/// Degrees of turn per pixel of pointer motion: 0.1, as thousandths of a degree per
/// thousandth of a pixel, over this divisor.
pub const MOUSE_SENSITIVITY_DIVISOR: i64 = 10;

/// How far behind the player the third-person camera stands, in whole world units:
/// five player sizes. A direction of length `UNIT` times this is that distance.
pub const THIRD_PERSON_SCALE: i64 = 500;

/// Lowest height of the top-down camera: three player sizes.
pub const MIN_ZOOM: i64 = 3 * PLAYER_SIZE;

/// Greatest height of the top-down camera: fifteen player sizes.
pub const MAX_ZOOM: i64 = 15 * PLAYER_SIZE;

/// Divisor of the zoom step: one notch of scroll moves the camera a tenth of its
/// distance to the player.
pub const ZOOM_DIVISOR: i64 = 10;

/// Distance to the player at which the top-down camera chases at full speed: 256 units.
pub const MAX_CHASE_DISTANCE: i64 = 256000;

/// How the camera is placed relative to the player.
#[derive(Clone, Copy, Debug, PartialEq, Eq, Structural)]
pub enum CameraViewpoint {
    FirstPerson,
    ThirdPerson,
}

/// Which forward direction movement follows.
#[derive(Clone, Copy, Debug, PartialEq, Eq, Structural)]
pub enum Heading {
    /// The camera's full forward direction, so that looking up moves up.
    Free,
    /// The camera's forward direction laid flat on the ground.
    Level,
}

/// Where the camera stands and what it looks at.
#[derive(Clone, Copy, Debug, PartialEq, Eq, Structural)]
pub enum Framing {
    /// At the player's position, looking along the forward direction.
    Eye,
    /// Behind the player along the forward direction, looking at the player.
    Behind,
}

/// The camera's position and the point it looks at.
#[derive(Clone, Copy, Debug, PartialEq, Eq, Structural)]
pub struct CameraPlacement {
    pub position: Vec3,
    pub target: Vec3,
}

impl Default for CameraViewpoint {
    fn default() -> (r: Self)
        ensures
            r == CameraViewpoint::FirstPerson,
    {
        CameraViewpoint::FirstPerson
    }
}

impl CameraViewpoint {
    /// The other viewpoint.
    pub open spec fn toggled(self) -> CameraViewpoint {
        match self {
            CameraViewpoint::FirstPerson => CameraViewpoint::ThirdPerson,
            CameraViewpoint::ThirdPerson => CameraViewpoint::FirstPerson,
        }
    }

    /// The heading that movement follows in this viewpoint.
    pub open spec fn heading_of(self) -> Heading {
        match self {
            CameraViewpoint::FirstPerson => Heading::Free,
            CameraViewpoint::ThirdPerson => Heading::Level,
        }
    }

    /// The framing of the camera in this viewpoint.
    pub open spec fn framing_of(self) -> Framing {
        match self {
            CameraViewpoint::FirstPerson => Framing::Eye,
            CameraViewpoint::ThirdPerson => Framing::Behind,
        }
    }

    /// Switches to the other viewpoint.
    pub fn swap(&mut self)
        ensures
            *final(self) == old(self).toggled(),
    {
        *self = match *self {
            CameraViewpoint::FirstPerson => CameraViewpoint::ThirdPerson,
            CameraViewpoint::ThirdPerson => CameraViewpoint::FirstPerson,
        };
    }

    /// The forward direction that movement follows in this viewpoint.
    pub fn heading(self) -> (r: Heading)
        ensures
            r == self.heading_of(),
    {
        match self {
            CameraViewpoint::FirstPerson => Heading::Free,
            CameraViewpoint::ThirdPerson => Heading::Level,
        }
    }

    /// How the camera is placed in this viewpoint.
    pub fn framing(self) -> (r: Framing)
        ensures
            r == self.framing_of(),
    {
        match self {
            CameraViewpoint::FirstPerson => Framing::Eye,
            CameraViewpoint::ThirdPerson => Framing::Behind,
        }
    }

    /// The direction movement follows, up to length: the forward direction itself,
    /// or with its height dropped when the heading is level.
    pub fn movement_front(self, front: Vec3) -> (r: Vec3)
        ensures
            r == level_front(self.heading_of(), front),
    {
        match self.heading() {
            Heading::Free => front,
            Heading::Level => Vec3 { x: front.x, y: front.y, z: 0 },
        }
    }

    /// Where the camera stands and looks, for a player at `player` facing `front`.
    pub fn place_camera(self, player: Vec3, front: Vec3) -> (r: CameraPlacement)
        requires
            player.within(WORLD_LIMIT as int),
            front.is_direction(),
        ensures
            r == placement(self.framing_of(), player, front),
    {
        match self.framing() {
            Framing::Eye => CameraPlacement {
                position: player,
                target: Vec3 {
                    x: player.x + front.x,
                    y: player.y + front.y,
                    z: player.z + front.z,
                },
            },
            Framing::Behind => {
                let k: i64 = THIRD_PERSON_SCALE;
                proof {
                    assert(-UNIT * k <= front.x * k <= UNIT * k) by (nonlinear_arith)
                        requires -UNIT <= front.x <= UNIT, k == 500;
                    assert(-UNIT * k <= front.y * k <= UNIT * k) by (nonlinear_arith)
                        requires -UNIT <= front.y <= UNIT, k == 500;
                    assert(-UNIT * k <= front.z * k <= UNIT * k) by (nonlinear_arith)
                        requires -UNIT <= front.z <= UNIT, k == 500;
                }
                CameraPlacement {
                    position: Vec3 {
                        x: player.x - front.x * k,
                        y: player.y - front.y * k,
                        z: player.z - front.z * k,
                    },
                    target: player,
                }
            },
        }
    }
}

/// The forward direction that movement follows under a heading.
pub open spec fn level_front(h: Heading, front: Vec3) -> Vec3 {
    match h {
        Heading::Free => front,
        Heading::Level => Vec3 { x: front.x, y: front.y, z: 0 },
    }
}

/// The camera's placement under a framing. Behind the player it stands
/// `THIRD_PERSON_SCALE` world units back along the forward direction.
pub open spec fn placement(f: Framing, player: Vec3, front: Vec3) -> CameraPlacement {
    match f {
        Framing::Eye => CameraPlacement {
            position: player,
            target: Vec3 {
                x: (player.x + front.x) as i64,
                y: (player.y + front.y) as i64,
                z: (player.z + front.z) as i64,
            },
        },
        Framing::Behind => CameraPlacement {
            position: Vec3 {
                x: (player.x - front.x * THIRD_PERSON_SCALE) as i64,
                y: (player.y - front.y * THIRD_PERSON_SCALE) as i64,
                z: (player.z - front.z * THIRD_PERSON_SCALE) as i64,
            },
            target: player,
        },
    }
}

/// The heading and the framing belong to one viewpoint.
pub open spec fn matched_pair(h: Heading, f: Framing) -> bool {
    (h == Heading::Free && f == Framing::Eye) || (h == Heading::Level && f == Framing::Behind)
}

/// A toggle switches the movement heading and the camera framing together: after
/// it, both belong to the new viewpoint, and each differs from before.
pub proof fn toggle_switches_pair(v: CameraViewpoint)
    ensures
        matched_pair(v.heading_of(), v.framing_of()),
        matched_pair(v.toggled().heading_of(), v.toggled().framing_of()),
        v.toggled().heading_of() != v.heading_of(),
        v.toggled().framing_of() != v.framing_of(),
        v.toggled().toggled() == v,
{
}

/// The camera's look angles, in thousandths of a degree. Roll is kept but unused.
#[derive(Clone, Copy, Debug, PartialEq, Eq, Structural)]
pub struct EulerAngles {
    pub yaw: i64,
    pub pitch: i64,
    pub roll: i64,
}

/// One tick of look input: summed pointer motion in thousandths of a pixel, and
/// the right stick of the first gamepad, if one is connected.
#[derive(Clone, Copy, Debug, PartialEq, Eq, Structural)]
pub struct LookInput {
    pub mouse_dx: i32,
    pub mouse_dy: i32,
    pub right_stick: Option<Stick>,
}

/// The stick's horizontal deflection past the deadzone, or zero.
pub open spec fn stick_x(s: Option<Stick>) -> int {
    match s {
        Some(st) => filtered(st.x) as int,
        None => 0,
    }
}

/// The stick's vertical deflection past the deadzone, or zero.
pub open spec fn stick_y(s: Option<Stick>) -> int {
    match s {
        Some(st) => filtered(st.y) as int,
        None => 0,
    }
}

impl LookInput {
    /// How far this input turns the yaw back: pointer motion scaled by the
    /// sensitivity, plus the stick.
    pub open spec fn yaw_delta(self) -> int {
        div_toward_zero(self.mouse_dx as int, MOUSE_SENSITIVITY_DIVISOR as int) + stick_x(
            self.right_stick,
        )
    }

    /// How far this input turns the pitch down: pointer motion scaled by the
    /// sensitivity, less the stick.
    pub open spec fn pitch_delta(self) -> int {
        div_toward_zero(self.mouse_dy as int, MOUSE_SENSITIVITY_DIVISOR as int) - stick_y(
            self.right_stick,
        )
    }

    /// The yaw and pitch deltas of this input.
    pub fn deltas(&self) -> (r: (i64, i64))
        ensures
            r.0 == self.yaw_delta(),
            r.1 == self.pitch_delta(),
    {
        let (sx, sy) = match self.right_stick {
            Some(st) => (filter_deadzone(st.x), filter_deadzone(st.y)),
            None => (0i32, 0i32),
        };
        let mx: i64 = self.mouse_dx as i64 / MOUSE_SENSITIVITY_DIVISOR;
        let my: i64 = self.mouse_dy as i64 / MOUSE_SENSITIVITY_DIVISOR;
        (mx + sx as i64, my - sy as i64)
    }
}

/// The yaw after turning back by `delta`, wrapped to within one turn with the sign
/// of the unwrapped value.
pub open spec fn turned_yaw(yaw: int, delta: int) -> int {
    rem_toward_zero(yaw - delta, FULL_TURN as int)
}

/// The pitch after turning down by `delta`, held within the pitch limit.
pub open spec fn turned_pitch(pitch: int, delta: int) -> int {
    clamp(pitch - delta, -PITCH_LIMIT, PITCH_LIMIT as int)
}

impl EulerAngles {
    /// Yaw within one turn of zero, pitch within the limit.
    pub open spec fn wf(self) -> bool {
        -FULL_TURN < self.yaw < FULL_TURN && -PITCH_LIMIT <= self.pitch <= PITCH_LIMIT
    }

    /// Turns the yaw back by `yaw_delta` and the pitch down by `pitch_delta`. Yaw
    /// wraps at a full turn; pitch stops at the limit, whatever the deltas.
    pub fn turn(&mut self, yaw_delta: i64, pitch_delta: i64)
        ensures
            final(self).yaw == turned_yaw(old(self).yaw as int, yaw_delta as int),
            final(self).pitch == turned_pitch(old(self).pitch as int, pitch_delta as int),
            final(self).roll == old(self).roll,
            final(self).wf(),
    {
        let y: i128 = (self.yaw as i128 - yaw_delta as i128) % (FULL_TURN as i128);
        self.yaw = y as i64;
        let p: i128 = self.pitch as i128 - pitch_delta as i128;
        self.pitch = if p < -(PITCH_LIMIT as i128) {
            -PITCH_LIMIT
        } else if p > PITCH_LIMIT as i128 {
            PITCH_LIMIT
        } else {
            p as i64
        };
    }

    /// Applies one tick of look input.
    pub fn look(&mut self, input: LookInput)
        ensures
            final(self).yaw == turned_yaw(old(self).yaw as int, input.yaw_delta()),
            final(self).pitch == turned_pitch(old(self).pitch as int, input.pitch_delta()),
            final(self).roll == old(self).roll,
            final(self).wf(),
    {
        let (dy, dp) = input.deltas();
        self.turn(dy, dp);
    }
}

/// Whatever the delta, a turned yaw lies strictly within one turn of zero, so
/// repeated turns never build up; when the unwrapped yaw is not negative it lies
/// in `[0, FULL_TURN)`.
pub proof fn yaw_stays_within_turn(yaw: i64, delta: i64)
    ensures
        -FULL_TURN < turned_yaw(yaw as int, delta as int) < FULL_TURN,
        yaw - delta >= 0 ==> 0 <= turned_yaw(yaw as int, delta as int) < FULL_TURN,
{
}

/// Whatever the delta, a turned pitch lies within `[-PITCH_LIMIT, PITCH_LIMIT]`.
pub proof fn pitch_stays_clamped(pitch: i64, delta: i64)
    ensures
        -PITCH_LIMIT <= turned_pitch(pitch as int, delta as int) <= PITCH_LIMIT,
{
}

/// The camera's forward direction, recomputed from its look angles every tick.
#[derive(Clone, Copy, Debug, PartialEq, Eq, Structural)]
pub struct Front {
    pub direction: Vec3,
}

impl Front {
    /// Straight up, until the first tick computes it.
    pub open spec fn default_spec() -> Front {
        Front { direction: Vec3 { x: 0, y: 0, z: UNIT } }
    }
}

impl Default for Front {
    /// Straight up, until the first tick computes it.
    fn default() -> (r: Self)
        ensures
            r == Front::default_spec(),
    {
        Front { direction: Vec3 { x: 0, y: 0, z: UNIT } }
    }
}

/// How far one tick of scroll and stick input moves the top-down camera down:
/// a tenth of its distance to the player per notch of scroll.
pub open spec fn zoom_step(scroll: i32, right_stick: Option<Stick>, distance: i64) -> int {
    div_toward_zero(
        (scroll + stick_y(right_stick)) * distance,
        (ZOOM_DIVISOR * UNIT) as int,
    )
}

/// The top-down camera's height after one tick of zoom input: `scroll` in
/// thousandths of a notch, `distance` from the camera to the player. The height
/// stays within `[MIN_ZOOM, MAX_ZOOM]` whatever the input.
pub fn zoom_height(height: i64, scroll: i32, right_stick: Option<Stick>, distance: i64) -> (r:
    i64)
    ensures
        r == clamp(height - zoom_step(scroll, right_stick, distance), MIN_ZOOM as int, MAX_ZOOM as int),
        MIN_ZOOM <= r <= MAX_ZOOM,
{
    let sy: i32 = match right_stick {
        Some(st) => filter_deadzone(st.y),
        None => 0,
    };
    let sum: i128 = scroll as i128 + sy as i128;
    proof {
        assert(-0x1_0000_0000 <= sum <= 0x1_0000_0000);
        assert(-0x1_0000_0000 * 0x8000_0000_0000_0000 <= sum * distance
            <= 0x1_0000_0000 * 0x8000_0000_0000_0000) by (nonlinear_arith)
            requires
                -0x1_0000_0000 <= sum <= 0x1_0000_0000,
                -0x8000_0000_0000_0000 <= distance <= 0x8000_0000_0000_0000,
        ;
    }
    let step: i128 = sum * (distance as i128) / ((ZOOM_DIVISOR * UNIT) as i128);
    let h: i128 = height as i128 - step;
    if h < MIN_ZOOM as i128 {
        MIN_ZOOM
    } else if h > MAX_ZOOM as i128 {
        MAX_ZOOM
    } else {
        h as i64
    }
}

/// One axis of the top-down camera's step toward the player: the direction
/// `toward` (of length `UNIT`) times the distance the player covers this tick,
/// eased down when the player is closer than `MAX_CHASE_DISTANCE`.
pub open spec fn chase_step(toward: i64, speed: u32, elapsed_ms: u32, distance: i64) -> int {
    let near = if distance < MAX_CHASE_DISTANCE {
        distance as int
    } else {
        MAX_CHASE_DISTANCE as int
    };
    div_toward_zero(toward * speed * elapsed_ms * near, MAX_CHASE_DISTANCE as int)
}

/// `v` lies between `a` and `b`, both included.
pub open spec fn between(a: int, b: int, v: int) -> bool {
    (a <= v <= b) || (b <= v <= a)
}

/// The rectangle with corners `a` and `b` holds `p`, its edges included.
pub open spec fn rect_contains(a: Vec2, b: Vec2, p: Vec2) -> bool {
    between(a.x as int, b.x as int, p.x as int) && between(a.y as int, b.y as int, p.y as int)
}

/// Where the top-down camera would step, before any snap.
pub open spec fn chase_target(
    camera: Vec2,
    toward: Vec2,
    distance: i64,
    speed: u32,
    elapsed_ms: u32,
) -> (int, int) {
    (
        camera.x + chase_step(toward.x, speed, elapsed_ms, distance),
        camera.y + chase_step(toward.y, speed, elapsed_ms, distance),
    )
}

/// The chase step, of length `UNIT * speed * elapsed_ms * near / MAX_CHASE_DISTANCE`,
/// covers at least the distance to the player.
pub open spec fn reaches_player(distance: i64, speed: u32, elapsed_ms: u32) -> bool {
    let near = if distance < MAX_CHASE_DISTANCE {
        distance as int
    } else {
        MAX_CHASE_DISTANCE as int
    };
    UNIT * speed * elapsed_ms * near >= distance * MAX_CHASE_DISTANCE
}

/// `v` held within the range of `i64`.
pub open spec fn saturate(v: int) -> i64 {
    clamp(v, i64::MIN as int, i64::MAX as int) as i64
}

fn saturate_i128(v: i128) -> (r: i64)
    ensures
        r == saturate(v as int),
{
    if v < i64::MIN as i128 {
        i64::MIN
    } else if v > i64::MAX as i128 {
        i64::MAX
    } else {
        v as i64
    }
}

/// Moves the top-down camera one tick toward the player on the ground plane.
/// `toward` is the direction from the camera to the player, of length `UNIT`;
/// `distance` is how far apart they are; `speed` and `elapsed_ms` give how far the
/// player can move this tick. A camera on the player stays put. When the step is
/// at least as long as the distance to the player, or the step's rectangle holds
/// the player, the camera lands exactly on the player instead of overshooting. A
/// step past the range of coordinates stops at its edge.
pub fn follow_player(
    camera: Vec2,
    player: Vec2,
    toward: Vec2,
    distance: i64,
    speed: u32,
    elapsed_ms: u32,
) -> (r: Vec2)
    requires
        -UNIT <= toward.x <= UNIT,
        -UNIT <= toward.y <= UNIT,
        distance >= 0,
    ensures
        distance == 0 ==> r == camera,
        distance > 0 && reaches_player(distance, speed, elapsed_ms) ==> r == player,
        distance > 0 && !reaches_player(distance, speed, elapsed_ms) ==> ({
            let t = chase_target(camera, toward, distance, speed, elapsed_ms);
            let next = Vec2 { x: saturate(t.0), y: saturate(t.1) };
            &&& rect_contains(camera, next, player) ==> r == player
            &&& !rect_contains(camera, next, player) ==> r == next
        }),
{
    if distance == 0 {
        return camera;
    }
    let near: i64 = if distance < MAX_CHASE_DISTANCE {
        distance
    } else {
        MAX_CHASE_DISTANCE
    };
    proof {
        assert(0 <= speed as int * elapsed_ms as int <= 0x1_0000_0000 * 0x1_0000_0000)
            by (nonlinear_arith)
            requires
                0 <= speed <= 0x1_0000_0000,
                0 <= elapsed_ms <= 0x1_0000_0000,
        ;
        assert(0 <= speed as int * elapsed_ms as int * near as int <= 0x1_0000_0000_0000_0000
            * MAX_CHASE_DISTANCE) by (nonlinear_arith)
            requires
                0 <= speed as int * elapsed_ms as int <= 0x1_0000_0000_0000_0000,
                0 <= near <= MAX_CHASE_DISTANCE,
        ;
    }
    let pace: i128 = speed as i128 * elapsed_ms as i128;
    let reach: i128 = pace * near as i128;
    proof {
        assert(0 <= reach <= 0x1_0000_0000_0000_0000 * MAX_CHASE_DISTANCE);
        assert(-0x1_0000_0000_0000_0000_0000_0000 <= toward.x * reach
            <= 0x1_0000_0000_0000_0000_0000_0000) by (nonlinear_arith)
            requires
                0 <= reach <= 0x1_0000_0000_0000_0000 * 256000,
                -1000 <= toward.x <= 1000,
        ;
        assert(-0x1_0000_0000_0000_0000_0000_0000 <= toward.y * reach
            <= 0x1_0000_0000_0000_0000_0000_0000) by (nonlinear_arith)
            requires
                0 <= reach <= 0x1_0000_0000_0000_0000 * 256000,
                -1000 <= toward.y <= 1000,
        ;
        assert(toward.x * speed * elapsed_ms * near == toward.x * reach) by (nonlinear_arith)
            requires
                reach == speed as int * elapsed_ms as int * near as int,
        ;
        assert(toward.y * speed * elapsed_ms * near == toward.y * reach) by (nonlinear_arith)
            requires
                reach == speed as int * elapsed_ms as int * near as int,
        ;
    }
    proof {
        assert(UNIT * speed * elapsed_ms * near == UNIT * reach) by (nonlinear_arith)
            requires
                reach == speed as int * elapsed_ms as int * near as int,
        ;
        assert(0 <= distance * MAX_CHASE_DISTANCE <= 0x8000_0000_0000_0000 * 256000)
            by (nonlinear_arith)
            requires
                0 <= distance <= 0x8000_0000_0000_0000,
        ;
    }
    if UNIT as i128 * reach >= distance as i128 * MAX_CHASE_DISTANCE as i128 {
        return player;
    }
    let dx: i128 = toward.x as i128 * reach / MAX_CHASE_DISTANCE as i128;
    let dy: i128 = toward.y as i128 * reach / MAX_CHASE_DISTANCE as i128;
    let next = Vec2 {
        x: saturate_i128(camera.x as i128 + dx),
        y: saturate_i128(camera.y as i128 + dy),
    };
    let in_x = (camera.x <= player.x && player.x <= next.x) || (next.x <= player.x && player.x
        <= camera.x);
    let in_y = (camera.y <= player.y && player.y <= next.y) || (next.y <= player.y && player.y
        <= camera.y);
    if in_x && in_y {
        player
    } else {
        next
    }
}

} // verus!
