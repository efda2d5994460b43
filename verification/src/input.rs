//! Input state for the joystick and the switch.
//!
//! A display backend reports raw key transitions as [`Event`] values; the
//! decision of what each transition means for the joystick position and
//! the switch lives here, so a backend only translates its own key codes
//! into events and feeds them to [`InputState::apply_event`].

use vstd::prelude::*;

verus! {

/// The five positions the joystick can be in.
#[derive(Clone, Copy, Debug, PartialEq, Eq, Structural)]
pub enum JoystickPosition {
    Center,
    Up,
    Down,
    Left,
    Right,
}

impl Default for JoystickPosition {
    /// A joystick at rest is centered.
    fn default() -> (p: Self)
        ensures
            p == JoystickPosition::Center,
    {
        JoystickPosition::Center
    }
}

/// Whether a key went down (`U`) or was released (`D`).
#[derive(Clone, Copy, Debug, PartialEq, Eq, Structural)]
pub enum EventKind {
    U,
    D,
}

/// Which control a key transition belongs to: the four joystick
/// directions, or the switch.
#[derive(Clone, Copy, Debug, PartialEq, Eq, Structural)]
pub enum EventKey {
    U,
    D,
    L,
    R,
    S,
}

/// One raw key transition reported by a backend.
#[derive(Clone, Copy, Debug, PartialEq, Eq, Structural)]
pub struct Event {
    pub kind: EventKind,
    pub key: EventKey,
}

/// The joystick position after an event: pressing a direction key moves
/// the joystick there, releasing any direction key recenters it, and the
/// switch key leaves it alone.
pub open spec fn spec_joystick_after(p: JoystickPosition, event: Event) -> JoystickPosition {
    match (event.kind, event.key) {
        (EventKind::U, EventKey::U) => JoystickPosition::Up,
        (EventKind::U, EventKey::D) => JoystickPosition::Down,
        (EventKind::U, EventKey::L) => JoystickPosition::Left,
        (EventKind::U, EventKey::R) => JoystickPosition::Right,
        (EventKind::U, EventKey::S) => p,
        (EventKind::D, EventKey::S) => p,
        (EventKind::D, _) => JoystickPosition::Center,
    }
}

/// The switch state after an event: pressing the switch key toggles it,
/// everything else leaves it alone.
pub open spec fn spec_switch_after(s: bool, event: Event) -> bool {
    match (event.kind, event.key) {
        (EventKind::U, EventKey::S) => !s,
        _ => s,
    }
}

/// The joystick position and switch state as a backend's event stream has
/// left them.
#[derive(Clone, Copy, Debug, PartialEq, Eq, Structural)]
pub struct InputState {
    pub joystick_position: JoystickPosition,
    pub switch: bool,
}

impl InputState {
    /// The state before any event: joystick centered, switch off.
    pub fn new() -> (s: Self)
        ensures
            s.joystick_position == JoystickPosition::Center,
            !s.switch,
    {
        InputState { joystick_position: JoystickPosition::Center, switch: false }
    }

    /// Apply one key transition to the state.
    pub fn apply_event(&mut self, event: Event)
        ensures
            final(self).joystick_position == spec_joystick_after(
                old(self).joystick_position,
                event,
            ),
            final(self).switch == spec_switch_after(old(self).switch, event),
    {
        match event {
            Event { kind: EventKind::U, key: EventKey::U } => {
                self.joystick_position = JoystickPosition::Up;
            },
            Event { kind: EventKind::U, key: EventKey::D } => {
                self.joystick_position = JoystickPosition::Down;
            },
            Event { kind: EventKind::U, key: EventKey::L } => {
                self.joystick_position = JoystickPosition::Left;
            },
            Event { kind: EventKind::U, key: EventKey::R } => {
                self.joystick_position = JoystickPosition::Right;
            },
            Event { kind: EventKind::U, key: EventKey::S } => {
                self.switch = !self.switch;
            },
            Event { kind: EventKind::D, key: EventKey::S } => {},
            Event { kind: EventKind::D, key: _ } => {
                self.joystick_position = JoystickPosition::Center;
            },
        }
    }
}

impl Default for InputState {
    /// The state before any event.
    fn default() -> (s: Self)
        ensures
            s.joystick_position == JoystickPosition::Center,
            !s.switch,
    {
        InputState { joystick_position: JoystickPosition::Center, switch: false }
    }
}

} // verus!
