//! Input aggregation, mapping-table, and stick arithmetic tests.

use switchbrew_bevy::input::{update_switch_input, GamepadButton, GamepadRead, KeyCode,
    SwitchButton, SwitchInput};
use switchbrew_bevy::stick::{clamp_to_unit, isqrt, normalized, StickVec};

fn tick(
    input: &mut SwitchInput,
    just_pressed: Vec<KeyCode>,
    just_released: Vec<KeyCode>,
    held: Vec<KeyCode>,
    pads: Vec<GamepadRead>,
) {
    update_switch_input(input, &just_pressed, &just_released, &held, &pads);
}

fn pad(left_x: i32, left_y: i32, right_x: i32, right_y: i32) -> GamepadRead {
    GamepadRead { left_x, left_y, right_x, right_y }
}

#[test]
fn keycode_table_maps_every_listed_key() {
    let mapped = [
        (KeyCode::KeyZ, SwitchButton::B),
        (KeyCode::KeyX, SwitchButton::A),
        (KeyCode::KeyA, SwitchButton::Y),
        (KeyCode::KeyS, SwitchButton::X),
        (KeyCode::KeyQ, SwitchButton::L),
        (KeyCode::KeyW, SwitchButton::R),
        (KeyCode::Digit1, SwitchButton::ZL),
        (KeyCode::Digit2, SwitchButton::ZR),
        (KeyCode::Enter, SwitchButton::Plus),
        (KeyCode::Backspace, SwitchButton::Minus),
        (KeyCode::ArrowUp, SwitchButton::DPadUp),
        (KeyCode::ArrowDown, SwitchButton::DPadDown),
        (KeyCode::ArrowLeft, SwitchButton::DPadLeft),
        (KeyCode::ArrowRight, SwitchButton::DPadRight),
    ];
    for (k, b) in mapped {
        assert_eq!(SwitchButton::from_keycode(k), Some(b));
    }
    for k in [KeyCode::Space, KeyCode::Escape, KeyCode::Tab, KeyCode::KeyI] {
        assert_eq!(SwitchButton::from_keycode(k), None);
    }
}

#[test]
fn gamepad_button_table() {
    assert_eq!(SwitchButton::A.to_gamepad_button(), GamepadButton::East);
    assert_eq!(SwitchButton::B.to_gamepad_button(), GamepadButton::South);
    assert_eq!(SwitchButton::X.to_gamepad_button(), GamepadButton::North);
    assert_eq!(SwitchButton::Y.to_gamepad_button(), GamepadButton::West);
    assert_eq!(SwitchButton::Plus.to_gamepad_button(), GamepadButton::Start);
    assert_eq!(SwitchButton::Minus.to_gamepad_button(), GamepadButton::Select);
    assert_eq!(SwitchButton::Home.to_gamepad_button(), GamepadButton::Mode);
    assert_eq!(SwitchButton::Capture.to_gamepad_button(), GamepadButton::Mode);
    assert_eq!(SwitchButton::SL.to_gamepad_button(), GamepadButton::LeftTrigger);
    assert_eq!(SwitchButton::SR.to_gamepad_button(), GamepadButton::RightTrigger);
    assert_eq!(SwitchButton::DPadUp.to_gamepad_button(), GamepadButton::DPadUp);
}

#[test]
fn press_then_release_populates_exactly_the_right_sets() {
    let mut input = SwitchInput::default();

    // Tick one: Z (mapped to B) goes down.
    tick(&mut input, vec![KeyCode::KeyZ], vec![], vec![], vec![]);
    assert!(input.pressed(SwitchButton::B));
    assert!(input.just_pressed(SwitchButton::B));
    assert!(!input.just_released(SwitchButton::B));
    assert!(!input.pressed(SwitchButton::A));
    assert!(!input.just_pressed(SwitchButton::A));

    // Tick two: Z goes up.
    tick(&mut input, vec![], vec![KeyCode::KeyZ], vec![], vec![]);
    assert!(!input.pressed(SwitchButton::B));
    assert!(!input.just_pressed(SwitchButton::B));
    assert!(input.just_released(SwitchButton::B));
}

#[test]
fn unmapped_key_produces_no_change() {
    let mut input = SwitchInput::default();
    tick(&mut input, vec![KeyCode::Space], vec![KeyCode::Escape], vec![], vec![]);
    let all = [
        SwitchButton::A, SwitchButton::B, SwitchButton::X, SwitchButton::Y,
        SwitchButton::L, SwitchButton::R, SwitchButton::ZL, SwitchButton::ZR,
        SwitchButton::LeftStick, SwitchButton::RightStick, SwitchButton::Plus,
        SwitchButton::Minus, SwitchButton::Home, SwitchButton::Capture,
        SwitchButton::DPadUp, SwitchButton::DPadDown, SwitchButton::DPadLeft,
        SwitchButton::DPadRight, SwitchButton::SL, SwitchButton::SR,
    ];
    for b in all {
        assert!(!input.pressed(b));
        assert!(!input.just_pressed(b));
        assert!(!input.just_released(b));
    }
}

#[test]
fn transient_sets_clear_each_tick() {
    let mut input = SwitchInput::default();
    tick(&mut input, vec![KeyCode::Enter], vec![], vec![], vec![]);
    assert!(input.just_pressed(SwitchButton::Plus));
    // Next tick with no key events: the press persists, the edges clear.
    tick(&mut input, vec![], vec![], vec![], vec![]);
    assert!(input.pressed(SwitchButton::Plus));
    assert!(!input.just_pressed(SwitchButton::Plus));
    assert!(!input.just_released(SwitchButton::Plus));
}

#[test]
fn keyboard_diagonal_normalizes_to_unit_length() {
    let mut input = SwitchInput::default();
    // Up (W) and right (D) held: (0.707, 0.707) in milli-units.
    tick(&mut input, vec![], vec![], vec![KeyCode::KeyW, KeyCode::KeyD], vec![]);
    assert_eq!(input.left_stick, StickVec { x: 707, y: 707 });

    // The IJKL alternates drive the same axes.
    let mut input2 = SwitchInput::default();
    tick(&mut input2, vec![], vec![], vec![KeyCode::KeyI, KeyCode::KeyL], vec![]);
    assert_eq!(input2.left_stick, StickVec { x: 707, y: 707 });
}

#[test]
fn keyboard_cardinal_is_full_deflection() {
    let mut input = SwitchInput::default();
    tick(&mut input, vec![], vec![], vec![KeyCode::KeyA], vec![]);
    assert_eq!(input.left_stick, StickVec { x: -1000, y: 0 });
    let mut input2 = SwitchInput::default();
    tick(&mut input2, vec![], vec![], vec![KeyCode::KeyK], vec![]);
    assert_eq!(input2.left_stick, StickVec { x: 0, y: -1000 });
}

#[test]
fn keyboard_overrides_gamepad_for_left_stick() {
    let mut input = SwitchInput::default();
    let pads = vec![pad(900, 0, 0, 0)];
    tick(&mut input, vec![], vec![], vec![KeyCode::KeyW], pads);
    // The gamepad wrote (900, 0), but the keyboard vector wins.
    assert_eq!(input.left_stick, StickVec { x: 0, y: 1000 });
}

#[test]
fn gamepad_below_deadzone_leaves_stick_unmodified() {
    let mut input = SwitchInput::default();
    input.left_stick = StickVec { x: 500, y: 500 };
    // Both axes at 0.05: below the 0.1 deadzone, the reading is dropped.
    tick(&mut input, vec![], vec![], vec![], vec![pad(50, 50, 0, 0)]);
    assert_eq!(input.left_stick, StickVec { x: 500, y: 500 });
}

#[test]
fn gamepad_above_deadzone_overwrites_stick() {
    let mut input = SwitchInput::default();
    tick(&mut input, vec![], vec![], vec![], vec![pad(300, -400, 0, 0)]);
    assert_eq!(input.left_stick, StickVec { x: 300, y: -400 });
}

#[test]
fn last_gamepad_wins() {
    let mut input = SwitchInput::default();
    let pads = vec![pad(300, 0, 200, 0), pad(0, 600, 0, 0)];
    tick(&mut input, vec![], vec![], vec![], pads);
    // The second pad overwrote the left stick; only the first moved the right.
    assert_eq!(input.left_stick, StickVec { x: 0, y: 600 });
    assert_eq!(input.right_stick, StickVec { x: 200, y: 0 });
}

#[test]
fn sub_deadzone_stick_is_zeroed() {
    let mut input = SwitchInput::default();
    input.left_stick = StickVec { x: 60, y: 60 };
    tick(&mut input, vec![], vec![], vec![], vec![]);
    assert_eq!(input.left_stick, StickVec { x: 0, y: 0 });
}

#[test]
fn movement_follows_stick_and_dpad() {
    let mut input = SwitchInput::default();
    assert_eq!(input.movement(), StickVec { x: 0, y: 0 });

    // Hold the d-pad up and right through arrow keys.
    tick(&mut input, vec![KeyCode::ArrowUp, KeyCode::ArrowRight], vec![], vec![], vec![]);
    assert!(input.pressed(SwitchButton::DPadUp));
    assert!(input.pressed(SwitchButton::DPadRight));
    let m = input.movement();
    assert_eq!(m, StickVec { x: 706, y: 706 });
}

#[test]
fn movement_magnitude_never_exceeds_unit() {
    // Adversarial combinations: extreme stick values plus all four
    // d-pad directions held at once.
    let sticks = [
        StickVec { x: 0, y: 0 },
        StickVec { x: 1000, y: 1000 },
        StickVec { x: -1000, y: 1000 },
        StickVec { x: 1000, y: -1000 },
        StickVec { x: -1000, y: -1000 },
        StickVec { x: 707, y: -707 },
        StickVec { x: 999, y: 1 },
    ];
    for s in sticks {
        let mut input = SwitchInput::default();
        tick(
            &mut input,
            vec![KeyCode::ArrowUp, KeyCode::ArrowDown, KeyCode::ArrowLeft, KeyCode::ArrowRight],
            vec![],
            vec![],
            vec![],
        );
        input.left_stick = s;
        let m = input.movement();
        let mag_sq = (m.x as i64) * (m.x as i64) + (m.y as i64) * (m.y as i64);
        assert!(mag_sq <= 1_000_000, "magnitude exceeded unit for {:?}", s);
    }
}

#[test]
fn movement_clamps_diagonal() {
    let mut input = SwitchInput::default();
    input.left_stick = StickVec { x: 1000, y: 1000 };
    assert_eq!(input.movement(), StickVec { x: 706, y: 706 });
}

#[test]
fn isqrt_exact_values() {
    assert_eq!(isqrt(0), 0);
    assert_eq!(isqrt(1), 1);
    assert_eq!(isqrt(2), 1);
    assert_eq!(isqrt(999_999), 999);
    assert_eq!(isqrt(1_000_000), 1000);
    assert_eq!(isqrt(2_000_000), 1414);
    assert_eq!(isqrt(8_000_000), 2828);
}

#[test]
fn normalize_and_clamp_exact_values() {
    assert_eq!(normalized(StickVec { x: 1000, y: 0 }), StickVec { x: 1000, y: 0 });
    assert_eq!(normalized(StickVec { x: 1000, y: 1000 }), StickVec { x: 707, y: 707 });
    assert_eq!(normalized(StickVec { x: -1000, y: 1000 }), StickVec { x: -707, y: 707 });
    assert_eq!(clamp_to_unit(StickVec { x: 500, y: 500 }), StickVec { x: 500, y: 500 });
    assert_eq!(clamp_to_unit(StickVec { x: 2000, y: 0 }), StickVec { x: 1000, y: 0 });
    assert_eq!(clamp_to_unit(StickVec { x: 1000, y: 1000 }), StickVec { x: 706, y: 706 });
    assert_eq!(clamp_to_unit(StickVec { x: -2000, y: 2000 }), StickVec { x: -706, y: 706 });
}
