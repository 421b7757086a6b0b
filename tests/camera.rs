use game_core::game::camera::{
    follow_player, zoom_height, CameraPlacement, CameraViewpoint, EulerAngles, Framing, Heading,
    LookInput, FULL_TURN, MAX_ZOOM, MIN_ZOOM, PITCH_LIMIT,
};
use game_core::game::{filter_deadzone, Stick, Vec2, Vec3, PLAYER_SIZE, UNIT};

#[test]
fn swap_toggles_viewpoint_and_pair() {
    let mut v = CameraViewpoint::default();
    assert_eq!(v, CameraViewpoint::FirstPerson);
    assert_eq!((v.heading(), v.framing()), (Heading::Free, Framing::Eye));
    v.swap();
    assert_eq!(v, CameraViewpoint::ThirdPerson);
    assert_eq!((v.heading(), v.framing()), (Heading::Level, Framing::Behind));
    v.swap();
    assert_eq!(v, CameraViewpoint::FirstPerson);
}

#[test]
fn first_person_camera_at_player_looking_forward() {
    let p = Vec3 { x: 5000, y: -2000, z: 50_000 };
    let f = Vec3 { x: 0, y: UNIT, z: 0 };
    let c = CameraViewpoint::FirstPerson.place_camera(p, f);
    assert_eq!(c, CameraPlacement { position: p, target: Vec3 { x: 5000, y: -1000, z: 50_000 } });
}

#[test]
fn third_person_camera_behind_player() {
    let p = Vec3 { x: 5000, y: -2000, z: 50_000 };
    let f = Vec3 { x: 0, y: UNIT, z: 0 };
    let c = CameraViewpoint::ThirdPerson.place_camera(p, f);
    // five player sizes back along the forward direction
    assert_eq!(c.position, Vec3 { x: 5000, y: -2000 - 5 * PLAYER_SIZE, z: 50_000 });
    assert_eq!(c.target, p);
}

#[test]
fn movement_front_levels_in_third_person() {
    let f = Vec3 { x: 600, y: 0, z: 800 };
    assert_eq!(CameraViewpoint::FirstPerson.movement_front(f), f);
    assert_eq!(CameraViewpoint::ThirdPerson.movement_front(f), Vec3 { x: 600, y: 0, z: 0 });
}

#[test]
fn yaw_wraps_with_sign_of_value() {
    let mut a = EulerAngles { yaw: 90_000, pitch: 0, roll: 0 };
    a.turn(-300_000, 0);
    assert_eq!(a.yaw, 30_000);
    let mut b = EulerAngles { yaw: 0, pitch: 0, roll: 0 };
    b.turn(10_000, 0);
    assert_eq!(b.yaw, -10_000);
    let mut c = EulerAngles { yaw: 359_999, pitch: 0, roll: 0 };
    c.turn(i64::MIN, 0);
    assert!(c.yaw > -FULL_TURN && c.yaw < FULL_TURN);
    for d in [1i64, 7_777_777, -123_456_789, 360_000, i64::MAX] {
        let mut e = EulerAngles { yaw: 90_000, pitch: 0, roll: 0 };
        for _ in 0..100 {
            e.turn(d, 0);
            assert!(e.yaw > -FULL_TURN && e.yaw < FULL_TURN);
        }
    }
}

#[test]
fn yaw_in_range_for_non_negative_values() {
    for d in [-1_000_000i64, -360_000, -1, 0, 90_000] {
        let mut a = EulerAngles { yaw: 90_000, pitch: 0, roll: 0 };
        a.turn(d, 0);
        assert!(a.yaw >= 0 && a.yaw < FULL_TURN);
    }
}

#[test]
fn pitch_is_clamped() {
    let mut a = EulerAngles { yaw: 0, pitch: 0, roll: 0 };
    a.turn(0, -200_000);
    assert_eq!(a.pitch, PITCH_LIMIT);
    assert_eq!(a.pitch, 89_000);
    a.turn(0, i64::MAX);
    assert_eq!(a.pitch, -89_000);
    a.turn(0, -1_000);
    assert_eq!(a.pitch, -88_000);
    a.turn(0, i64::MIN);
    assert_eq!(a.pitch, 89_000);
}

#[test]
fn look_scales_mouse_and_filters_stick() {
    let input = LookInput { mouse_dx: 1500, mouse_dy: -2500, right_stick: Some(Stick { x: 100, y: 500 }) };
    assert_eq!(input.deltas(), (150, -250 - 500));
    let mut a = EulerAngles { yaw: 90_000, pitch: 0, roll: 3 };
    a.look(input);
    assert_eq!(a, EulerAngles { yaw: 89_850, pitch: 750, roll: 3 });
    let none = LookInput { mouse_dx: 0, mouse_dy: 0, right_stick: Some(Stick { x: 150, y: -150 }) };
    assert_eq!(none.deltas(), (0, 0));
}

#[test]
fn deadzone_filter() {
    assert_eq!(filter_deadzone(150), 0);
    assert_eq!(filter_deadzone(-150), 0);
    assert_eq!(filter_deadzone(151), 151);
    assert_eq!(filter_deadzone(-151), -151);
    assert_eq!(filter_deadzone(i32::MIN), i32::MIN);
}

#[test]
fn zoom_steps_by_tenth_of_distance() {
    // one notch of scroll toward the player moves a tenth of the distance down
    assert_eq!(zoom_height(1_000_000, 1000, None, 1_000_000), 900_000);
    assert_eq!(zoom_height(1_000_000, -1000, None, 1_000_000), 1_100_000);
    // the stick's y adds to the scroll past the deadzone only
    assert_eq!(zoom_height(1_000_000, 0, Some(Stick { x: 0, y: 500 }), 1_000_000), 950_000);
    assert_eq!(zoom_height(1_000_000, 0, Some(Stick { x: 0, y: 100 }), 1_000_000), 1_000_000);
}

#[test]
fn zoom_stays_clamped() {
    assert_eq!(MIN_ZOOM, 3 * PLAYER_SIZE);
    assert_eq!(MAX_ZOOM, 15 * PLAYER_SIZE);
    let mut h = 500_000;
    for s in [i32::MAX, i32::MIN, 0, 5000, -5000, 123_456] {
        h = zoom_height(h, s, None, 2_000_000);
        assert!(h >= MIN_ZOOM && h <= MAX_ZOOM);
    }
    assert_eq!(zoom_height(0, 0, None, 0), MIN_ZOOM);
    assert_eq!(zoom_height(i64::MAX, 0, None, 0), MAX_ZOOM);
}

#[test]
fn follow_snaps_onto_player() {
    let cam = Vec2 { x: 0, y: 0 };
    let player = Vec2 { x: 10_000, y: 0 };
    // speed 100 units/ms for 16 ms, eased by 10/256, steps 62.5 units: past the
    // player 10 units away, so the camera lands on the player
    let r = follow_player(cam, player, Vec2 { x: UNIT, y: 0 }, 10_000, 100, 16);
    assert_eq!(r, player);
    // speed 1 for 16 ms steps 0.625 units and stops short
    let r = follow_player(cam, player, Vec2 { x: UNIT, y: 0 }, 10_000, 1, 16);
    assert_eq!(r, Vec2 { x: 625, y: 0 });
}

#[test]
fn follow_steps_toward_distant_player() {
    let cam = Vec2 { x: 0, y: 0 };
    let player = Vec2 { x: 0, y: 1_000_000 };
    // beyond the chase distance the step is the full 16 units
    let r = follow_player(cam, player, Vec2 { x: 0, y: UNIT }, 1_000_000, 1, 16);
    assert_eq!(r, Vec2 { x: 0, y: 16_000 });
    // at half the chase distance it is half as long
    let player = Vec2 { x: 0, y: 128_000 };
    let r = follow_player(cam, player, Vec2 { x: 0, y: UNIT }, 128_000, 1, 16);
    assert_eq!(r, Vec2 { x: 0, y: 8_000 });
}

#[test]
fn follow_stays_on_player() {
    let p = Vec2 { x: 3, y: 4 };
    assert_eq!(follow_player(p, p, Vec2 { x: 0, y: 0 }, 0, 5, 16), p);
}

#[test]
fn follow_snaps_when_step_reaches_player_off_axis() {
    // player 300 units away and a thousandth of a unit off the x axis; the rounded
    // direction is (1, 0), so the step's rectangle is flat, but the 640-unit step
    // covers the distance and the camera lands on the player
    let cam = Vec2 { x: 0, y: 0 };
    let player = Vec2 { x: 300_000, y: 1 };
    let r = follow_player(cam, player, Vec2 { x: UNIT, y: 0 }, 300_000, 40, 16);
    assert_eq!(r, player);
    let again = follow_player(r, player, Vec2 { x: 0, y: 0 }, 0, 40, 16);
    assert_eq!(again, player);
}
