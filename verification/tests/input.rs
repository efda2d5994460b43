//! Input state transition behavior.

use led_matrix::input::{Event, EventKey, EventKind, InputState, JoystickPosition};

fn press(key: EventKey) -> Event {
    Event { kind: EventKind::U, key }
}

fn release(key: EventKey) -> Event {
    Event { kind: EventKind::D, key }
}

#[test]
fn new_state_is_centered_with_switch_off() {
    let state = InputState::new();
    assert_eq!(state.joystick_position, JoystickPosition::Center);
    assert!(!state.switch);
    let default = InputState::default();
    assert_eq!(default, state);
}

#[test]
fn direction_press_moves_the_joystick() {
    let mut state = InputState::new();
    state.apply_event(press(EventKey::U));
    assert_eq!(state.joystick_position, JoystickPosition::Up);
    state.apply_event(press(EventKey::L));
    assert_eq!(state.joystick_position, JoystickPosition::Left);
    state.apply_event(press(EventKey::D));
    assert_eq!(state.joystick_position, JoystickPosition::Down);
    state.apply_event(press(EventKey::R));
    assert_eq!(state.joystick_position, JoystickPosition::Right);
}

#[test]
fn direction_release_recenters_the_joystick() {
    let mut state = InputState::new();
    state.apply_event(press(EventKey::R));
    state.apply_event(release(EventKey::R));
    assert_eq!(state.joystick_position, JoystickPosition::Center);
}

#[test]
fn switch_press_toggles_and_release_does_not() {
    let mut state = InputState::new();
    state.apply_event(press(EventKey::S));
    assert!(state.switch);
    state.apply_event(release(EventKey::S));
    assert!(state.switch);
    state.apply_event(press(EventKey::S));
    assert!(!state.switch);
}

#[test]
fn switch_events_leave_the_joystick_alone() {
    let mut state = InputState::new();
    state.apply_event(press(EventKey::U));
    state.apply_event(press(EventKey::S));
    state.apply_event(release(EventKey::S));
    assert_eq!(state.joystick_position, JoystickPosition::Up);
}

#[test]
fn default_joystick_position_is_center() {
    assert_eq!(JoystickPosition::default(), JoystickPosition::Center);
}
