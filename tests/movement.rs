use game_core::game::movement::{MoveIntent, MoveKeys};
use game_core::game::{Stick, Vec3, UNIT};

fn keys(w: bool, s: bool, a: bool, d: bool) -> MoveKeys {
    MoveKeys { forward: w, back: s, left: a, right: d }
}

#[test]
fn no_input_no_movement() {
    let m = MoveIntent::from_input(keys(false, false, false, false), None);
    assert_eq!(m, MoveIntent { forward: 0, strafe: 0, moved: false });
    assert_eq!(m.world_direction(Vec3 { x: UNIT, y: 0, z: 0 }), None);
    assert_eq!(m.plane_direction(), None);
}

#[test]
fn stick_inside_deadzone_moves_nothing() {
    let m = MoveIntent::from_input(keys(false, false, false, false), Some(Stick { x: 150, y: -149 }));
    assert_eq!(m, MoveIntent { forward: 0, strafe: 0, moved: false });
    assert_eq!(m.world_direction(Vec3 { x: 0, y: UNIT, z: 0 }), None);
}

#[test]
fn first_checked_key_wins() {
    let m = MoveIntent::from_input(keys(true, true, true, true), None);
    assert_eq!(m, MoveIntent { forward: UNIT, strafe: -UNIT, moved: true });
    let m = MoveIntent::from_input(keys(false, true, false, true), None);
    assert_eq!(m, MoveIntent { forward: -UNIT, strafe: UNIT, moved: true });
}

#[test]
fn stick_adds_to_keys() {
    let m = MoveIntent::from_input(keys(true, false, false, false), Some(Stick { x: 400, y: -300 }));
    assert_eq!(m, MoveIntent { forward: 700, strafe: 400, moved: true });
}

#[test]
fn world_direction_forward_and_strafe() {
    let front = Vec3 { x: 0, y: UNIT, z: 0 };
    let w = MoveIntent::from_input(keys(true, false, false, false), None);
    assert_eq!(w.world_direction(front), Some(Vec3 { x: 0, y: UNIT * UNIT, z: 0 }));
    // D strafes along front x up: (0,1,0) x (0,0,1) = (1,0,0)
    let d = MoveIntent::from_input(keys(false, false, false, true), None);
    assert_eq!(d.world_direction(front), Some(Vec3 { x: UNIT * UNIT, y: 0, z: 0 }));
    let a = MoveIntent::from_input(keys(false, false, true, false), None);
    assert_eq!(a.world_direction(front), Some(Vec3 { x: -UNIT * UNIT, y: 0, z: 0 }));
}

#[test]
fn cancelled_request_gives_no_direction() {
    let m = MoveIntent::from_input(keys(true, false, false, false), Some(Stick { x: 0, y: -1000 }));
    assert!(m.moved);
    assert_eq!(m.forward, 0);
    assert_eq!(m.world_direction(Vec3 { x: 0, y: UNIT, z: 0 }), None);
    assert_eq!(m.plane_direction(), None);
}

#[test]
fn plane_direction_ignores_camera() {
    let m = MoveIntent::from_input(keys(false, true, false, true), None);
    assert_eq!(m.plane_direction(), Some(Vec3 { x: UNIT, y: -UNIT, z: 0 }));
}
