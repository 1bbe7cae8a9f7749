use player_motion::fixed::Fixed;
use player_motion::input::{lean, InputSnapshot};
use player_motion::orientation::{
    held_after, total, ButtonEvent, LookCommand, LookMode, MouseButton, OrientationController,
    DEFAULT_KEY_SENSITIVITY_RAW, DEFAULT_MOUSE_SENSITIVITY_RAW, ORBIT_PIXELS_PER_RADIAN,
    PITCH_MAX_RAW, PITCH_MIN_RAW,
};

fn fx(raw: i64) -> Fixed {
    Fixed::from_raw(raw)
}

const DT: u64 = 16_666_667;

fn mouse(dx: i64, dy: i64) -> InputSnapshot {
    InputSnapshot { mouse_dx: fx(dx), mouse_dy: fx(dy), ..InputSnapshot::idle(DT) }
}

fn event(button: MouseButton, pressed: bool) -> ButtonEvent {
    ButtonEvent { button, pressed }
}

#[test]
fn look_constants_have_their_values() {
    assert_eq!(PITCH_MAX_RAW, 89_900_000_000);
    assert_eq!(PITCH_MIN_RAW, -89_900_000_000);
    assert_eq!(ORBIT_PIXELS_PER_RADIAN, 75);
    assert_eq!(DEFAULT_MOUSE_SENSITIVITY_RAW, 3_200_000_000);
    assert_eq!(DEFAULT_KEY_SENSITIVITY_RAW, 4_500_000_000);
}

#[test]
fn default_controller_looks_straight_ahead() {
    let c = OrientationController::default();
    assert_eq!(c.yaw(), Fixed::zero());
    assert_eq!(c.pitch(), Fixed::zero());
    assert_eq!(c.mouse_sensitivity(), fx(3_200_000_000));
    assert_eq!(c.key_sensitivity(), fx(4_500_000_000));
}

#[test]
fn lean_follows_the_key_held_alone() {
    let along = fx(4_500_000_000);
    assert_eq!(lean(true, false, along), along);
    assert_eq!(lean(false, true, along), fx(-4_500_000_000));
    assert_eq!(lean(true, true, along), Fixed::zero());
    assert_eq!(lean(false, false, along), Fixed::zero());
    assert_eq!(lean(false, true, fx(i64::MIN)), fx(i64::MAX));
}

#[test]
fn free_look_adds_mouse_motion_times_sensitivity() {
    let mut c = OrientationController::new(fx(200_000_000), fx(1_500_000_000));
    // ten pixels right, five pixels down
    let command = c.update(LookMode::FreeLook, &mouse(10_000_000_000, 5_000_000_000));
    assert_eq!(c.yaw(), fx(2_000_000_000));
    assert_eq!(c.pitch(), fx(-1_000_000_000));
    assert_eq!(command, LookCommand::Face { yaw: fx(2_000_000_000), pitch: fx(-1_000_000_000) });
}

#[test]
fn free_look_accumulates_over_frames() {
    let mut c = OrientationController::new(fx(200_000_000), fx(1_500_000_000));
    for _ in 0..10 {
        c.update(LookMode::FreeLook, &mouse(10_000_000_000, -5_000_000_000));
    }
    assert_eq!(c.yaw(), fx(20_000_000_000));
    assert_eq!(c.pitch(), fx(10_000_000_000));
}

#[test]
fn look_keys_add_the_key_sensitivity_per_frame() {
    let mut c = OrientationController::default();
    let up_right = InputSnapshot { look_up: true, look_right: true, ..InputSnapshot::idle(DT) };
    c.update(LookMode::FreeLook, &up_right);
    assert_eq!(c.yaw(), fx(4_500_000_000));
    assert_eq!(c.pitch(), fx(4_500_000_000));
    let down_left = InputSnapshot { look_down: true, look_left: true, ..InputSnapshot::idle(DT) };
    c.update(LookMode::FreeLook, &down_left);
    c.update(LookMode::FreeLook, &down_left);
    assert_eq!(c.yaw(), fx(-4_500_000_000));
    assert_eq!(c.pitch(), fx(-4_500_000_000));
}

#[test]
fn opposed_look_keys_cancel() {
    let mut c = OrientationController::default();
    let all = InputSnapshot {
        look_up: true,
        look_down: true,
        look_left: true,
        look_right: true,
        ..InputSnapshot::idle(DT)
    };
    let command = c.update(LookMode::FreeLook, &all);
    assert_eq!(c.yaw(), Fixed::zero());
    assert_eq!(c.pitch(), Fixed::zero());
    assert_eq!(command, LookCommand::Face { yaw: Fixed::zero(), pitch: Fixed::zero() });
}

#[test]
fn mouse_and_keys_add_up() {
    let mut c = OrientationController::new(fx(200_000_000), fx(1_500_000_000));
    let input = InputSnapshot {
        look_up: true,
        look_left: true,
        mouse_dx: fx(10_000_000_000),
        mouse_dy: fx(10_000_000_000),
        ..InputSnapshot::idle(DT)
    };
    c.update(LookMode::FreeLook, &input);
    assert_eq!(c.yaw(), fx(500_000_000));
    assert_eq!(c.pitch(), fx(-500_000_000));
}

#[test]
fn pitch_stops_at_the_upper_limit() {
    let mut c = OrientationController::default();
    let up = InputSnapshot { look_up: true, ..InputSnapshot::idle(DT) };
    for frame in 0..100 {
        c.update(LookMode::FreeLook, &up);
        assert!(c.pitch().raw <= PITCH_MAX_RAW);
        if frame >= 19 {
            assert_eq!(c.pitch(), fx(89_900_000_000));
        }
    }
    // 19 frames of 4.5 are 85.5, the twentieth would be 90.0
    let mut d = OrientationController::default();
    for _ in 0..19 {
        d.update(LookMode::FreeLook, &up);
    }
    assert_eq!(d.pitch(), fx(85_500_000_000));
}

#[test]
fn pitch_stops_at_the_lower_limit() {
    let mut c = OrientationController::default();
    let down = InputSnapshot { look_down: true, ..InputSnapshot::idle(DT) };
    for _ in 0..100 {
        c.update(LookMode::FreeLook, &down);
        assert!(c.pitch().raw >= PITCH_MIN_RAW);
    }
    assert_eq!(c.pitch(), fx(-89_900_000_000));
}

#[test]
fn pitch_stays_within_limits_for_the_largest_input() {
    let mut c = OrientationController::default();
    for _ in 0..10 {
        let command = c.update(LookMode::FreeLook, &mouse(0, i64::MIN));
        assert_eq!(c.pitch(), fx(89_900_000_000));
        assert_eq!(command, LookCommand::Face { yaw: Fixed::zero(), pitch: fx(89_900_000_000) });
    }
    for _ in 0..10 {
        c.update(LookMode::FreeLook, &mouse(0, i64::MAX));
        assert_eq!(c.pitch(), fx(-89_900_000_000));
    }
    let up = InputSnapshot { look_up: true, mouse_dy: fx(i64::MIN), ..InputSnapshot::idle(DT) };
    c.update(LookMode::FreeLook, &up);
    assert_eq!(c.pitch(), fx(89_900_000_000));
}

#[test]
fn pitch_comes_back_from_the_limit() {
    let mut c = OrientationController::default();
    let up = InputSnapshot { look_up: true, ..InputSnapshot::idle(DT) };
    let down = InputSnapshot { look_down: true, ..InputSnapshot::idle(DT) };
    for _ in 0..1000 {
        c.update(LookMode::FreeLook, &up);
    }
    c.update(LookMode::FreeLook, &down);
    assert_eq!(c.pitch(), fx(85_400_000_000));
}

#[test]
fn yaw_is_not_limited_but_saturates() {
    let mut c = OrientationController::default();
    let right = InputSnapshot { look_right: true, ..InputSnapshot::idle(DT) };
    for _ in 0..100 {
        c.update(LookMode::FreeLook, &right);
    }
    assert_eq!(c.yaw(), fx(450_000_000_000));
    c.update(LookMode::FreeLook, &mouse(i64::MAX, 0));
    assert_eq!(c.yaw(), fx(i64::MAX));
    c.update(LookMode::FreeLook, &mouse(i64::MAX, 0));
    assert_eq!(c.yaw(), fx(i64::MAX));
}

#[test]
fn idle_frames_leave_the_orientation_alone() {
    let mut c = OrientationController::new(fx(200_000_000), fx(1_500_000_000));
    c.update(LookMode::FreeLook, &mouse(123_456_789_012, -45_678_901_234));
    let yaw = c.yaw();
    let pitch = c.pitch();
    for _ in 0..1000 {
        let command = c.update(LookMode::FreeLook, &InputSnapshot::idle(DT));
        assert_eq!(command, LookCommand::Face { yaw, pitch });
    }
    assert_eq!(c.yaw(), yaw);
    assert_eq!(c.pitch(), pitch);
    // movement and jump keys are no look input
    let busy = InputSnapshot {
        forward: true,
        left: true,
        jump_pressed: true,
        jump_held: true,
        ..InputSnapshot::idle(DT)
    };
    c.update(LookMode::FreeLook, &busy);
    assert_eq!(c.yaw(), yaw);
    assert_eq!(c.pitch(), pitch);
}

#[test]
fn orbit_swings_by_mouse_motion_over_75() {
    let mut c = OrientationController::default();
    let held = LookMode::Orbit { button_held: true };
    assert_eq!(
        c.update(held, &mouse(150_000_000_000, 0)),
        LookCommand::Swing { angle: fx(-2_000_000_000) }
    );
    assert_eq!(
        c.update(held, &mouse(-1_000_000_000, 0)),
        LookCommand::Swing { angle: fx(13_333_333) }
    );
    assert_eq!(
        c.update(held, &mouse(1_000_000_000, 0)),
        LookCommand::Swing { angle: fx(-13_333_333) }
    );
}

#[test]
fn orbit_ignores_vertical_motion_and_look_keys() {
    let mut c = OrientationController::default();
    let held = LookMode::Orbit { button_held: true };
    let input = InputSnapshot {
        look_up: true,
        look_right: true,
        mouse_dy: fx(50_000_000_000),
        ..InputSnapshot::idle(DT)
    };
    assert_eq!(c.update(held, &input), LookCommand::Swing { angle: Fixed::zero() });
    assert_eq!(c.yaw(), Fixed::zero());
    assert_eq!(c.pitch(), Fixed::zero());
}

#[test]
fn orbit_keeps_the_transform_while_the_button_is_up() {
    let mut c = OrientationController::default();
    let up = LookMode::Orbit { button_held: false };
    assert_eq!(c.update(up, &mouse(150_000_000_000, 7)), LookCommand::Keep);
    assert_eq!(c.yaw(), Fixed::zero());
    assert_eq!(c.pitch(), Fixed::zero());
}

#[test]
fn orbit_leaves_yaw_and_pitch_alone() {
    let mut c = OrientationController::new(fx(200_000_000), fx(1_500_000_000));
    c.update(LookMode::FreeLook, &mouse(10_000_000_000, 5_000_000_000));
    c.update(LookMode::Orbit { button_held: true }, &mouse(150_000_000_000, 9));
    assert_eq!(c.yaw(), fx(2_000_000_000));
    assert_eq!(c.pitch(), fx(-1_000_000_000));
}

#[test]
fn orbit_with_the_largest_motion() {
    let mut c = OrientationController::default();
    let held = LookMode::Orbit { button_held: true };
    assert_eq!(
        c.update(held, &mouse(i64::MIN, 0)),
        LookCommand::Swing { angle: fx(122_978_293_824_730_344) }
    );
    assert_eq!(
        c.update(held, &mouse(i64::MAX, 0)),
        LookCommand::Swing { angle: fx(-122_978_293_824_730_344) }
    );
}

#[test]
fn last_left_button_event_decides() {
    let down = event(MouseButton::Left, true);
    let up = event(MouseButton::Left, false);
    assert!(held_after(false, &[down]));
    assert!(!held_after(true, &[up]));
    assert!(!held_after(false, &[down, up]));
    assert!(held_after(false, &[up, down]));
    assert!(held_after(false, &[down, up, down]));
}

#[test]
fn without_a_left_button_event_the_button_stays() {
    assert!(held_after(true, &[]));
    assert!(!held_after(false, &[]));
    let others = [
        event(MouseButton::Right, true),
        event(MouseButton::Middle, false),
        event(MouseButton::Other, true),
    ];
    assert!(held_after(true, &others));
    assert!(!held_after(false, &others));
}

#[test]
fn other_buttons_do_not_hide_the_left_one() {
    let events = [
        event(MouseButton::Left, true),
        event(MouseButton::Right, false),
        event(MouseButton::Middle, false),
    ];
    assert!(held_after(false, &events));
    let events = [
        event(MouseButton::Right, true),
        event(MouseButton::Left, false),
        event(MouseButton::Other, true),
    ];
    assert!(!held_after(true, &events));
}

#[test]
fn total_sums_in_order() {
    assert_eq!(total(&[]), Fixed::zero());
    assert_eq!(total(&[fx(5)]), fx(5));
    assert_eq!(total(&[fx(1_500_000_000), fx(-500_000_000), fx(250_000_000)]), fx(1_250_000_000));
}

#[test]
fn total_saturates_as_it_goes() {
    // the sum stops at the largest value before the last term takes it down
    assert_eq!(total(&[fx(i64::MAX), fx(1), fx(-1)]), fx(i64::MAX - 1));
    assert_eq!(total(&[fx(i64::MAX), fx(-1), fx(1)]), fx(i64::MAX));
    assert_eq!(total(&[fx(i64::MIN), fx(-5), fx(5)]), fx(i64::MIN + 5));
}

#[test]
fn set_facing_turns_the_controller() {
    let mut c = OrientationController::new(fx(200_000_000), fx(1_500_000_000));
    c.set_facing(fx(45_000_000_000), fx(-35_264_390_000));
    assert_eq!(c.yaw(), fx(45_000_000_000));
    assert_eq!(c.pitch(), fx(-35_264_390_000));
    assert_eq!(c.mouse_sensitivity(), fx(200_000_000));
    assert_eq!(c.key_sensitivity(), fx(1_500_000_000));
    // an idle frame of free look faces where the controller was turned to
    assert_eq!(
        c.update(LookMode::FreeLook, &InputSnapshot::idle(DT)),
        LookCommand::Face { yaw: fx(45_000_000_000), pitch: fx(-35_264_390_000) }
    );
}

#[test]
fn set_facing_holds_the_pitch_within_the_limits() {
    let mut c = OrientationController::default();
    c.set_facing(fx(i64::MIN), fx(i64::MAX));
    assert_eq!(c.yaw(), fx(i64::MIN));
    assert_eq!(c.pitch(), fx(89_900_000_000));
    c.set_facing(fx(0), fx(-90_000_000_000));
    assert_eq!(c.pitch(), fx(-89_900_000_000));
}
