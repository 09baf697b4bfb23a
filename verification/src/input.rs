//! Input events as the session controller sees them.
//!
//! The windowing layer knows many more keys and buttons than the controller
//! reacts to; everything it does not react to is `Other`.

use crate::keys::KeyboardKeys;
use vstd::prelude::*;

verus! {

/// What happened to a key or button in the frame an event reports.
#[derive(Clone, Copy, Debug, PartialEq, Eq, Structural)]
pub enum ButtonState {
    /// It went down in this frame.
    Pressed,
    /// It is down, and was down before.
    Held,
    /// It went up in this frame.
    Released,
    /// It is up, and was up before.
    NotPressed,
}

/// The keyboard keys that the controller tells apart.
#[derive(Clone, Copy, Debug, PartialEq, Eq, Structural)]
pub enum Key {
    Return,
    Escape,
    Up,
    Left,
    Right,
    Down,
    W,
    A,
    D,
    S,
    P,
    Pause,
    /// Any other key.
    Other,
}

/// The gamepad buttons that the controller tells apart.
#[derive(Clone, Copy, Debug, PartialEq, Eq, Structural)]
pub enum GamepadButton {
    DpadUp,
    DpadLeft,
    DpadRight,
    DpadDown,
    Start,
    /// Any other button.
    Other,
}

/// One input event.
#[derive(Clone, Copy, Debug, PartialEq, Eq, Structural)]
pub enum InputEvent {
    /// A keyboard key changed.
    Key(Key, ButtonState),
    /// A button changed, on whichever gamepad.
    GamepadButton(GamepadButton, ButtonState),
    /// Anything else: mouse, focus, text, axes.
    Other,
}

/// A movement key going down or up.
#[derive(Clone, Copy, Debug, PartialEq, Eq, Structural)]
pub enum Movement {
    Press(KeyboardKeys),
    Release(KeyboardKeys),
}

impl InputEvent {
    /// The direction that a key or button stands for, if it stands for one.
    /// An arrow key, a key of W/A/S/D and a button of the d-pad are aliases
    /// of one another.
    pub open spec fn direction(self) -> Option<KeyboardKeys> {
        match self {
            InputEvent::Key(Key::Up, _) | InputEvent::Key(Key::W, _) | InputEvent::GamepadButton(
                GamepadButton::DpadUp,
                _,
            ) => Some(KeyboardKeys::KeyUp),
            InputEvent::Key(Key::Left, _) | InputEvent::Key(Key::A, _)
            | InputEvent::GamepadButton(GamepadButton::DpadLeft, _) => Some(KeyboardKeys::KeyLeft),
            InputEvent::Key(Key::Right, _) | InputEvent::Key(Key::D, _)
            | InputEvent::GamepadButton(GamepadButton::DpadRight, _) => Some(
                KeyboardKeys::KeyRight,
            ),
            InputEvent::Key(Key::Down, _) | InputEvent::Key(Key::S, _)
            | InputEvent::GamepadButton(GamepadButton::DpadDown, _) => Some(KeyboardKeys::KeyDown),
            _ => None,
        }
    }

    /// How the key or button of the event changed, if the event has one.
    pub open spec fn button_state(self) -> Option<ButtonState> {
        match self {
            InputEvent::Key(_, s) => Some(s),
            InputEvent::GamepadButton(_, s) => Some(s),
            InputEvent::Other => None,
        }
    }

    /// The change of a movement key that the event reports: a press or a
    /// release of an alias of a direction. Held and idle reports are none.
    pub open spec fn movement(self) -> Option<Movement> {
        match (self.direction(), self.button_state()) {
            (Some(d), Some(ButtonState::Pressed)) => Some(Movement::Press(d)),
            (Some(d), Some(ButtonState::Released)) => Some(Movement::Release(d)),
            _ => None,
        }
    }

    /// The confirm input: Return going down.
    pub open spec fn is_confirm(self) -> bool {
        self == InputEvent::Key(Key::Return, ButtonState::Pressed)
    }

    /// The quit input: Escape going down.
    pub open spec fn is_quit(self) -> bool {
        self == InputEvent::Key(Key::Escape, ButtonState::Pressed)
    }

    /// The pause input: P, Pause or the gamepad's Start going down.
    pub open spec fn is_pause(self) -> bool {
        ||| self == InputEvent::Key(Key::P, ButtonState::Pressed)
        ||| self == InputEvent::Key(Key::Pause, ButtonState::Pressed)
        ||| self == InputEvent::GamepadButton(GamepadButton::Start, ButtonState::Pressed)
    }

    /// The inputs that leave a finished session: confirm, quit, or the
    /// gamepad's Start going down.
    pub open spec fn is_leave(self) -> bool {
        ||| self.is_confirm()
        ||| self.is_quit()
        ||| self == InputEvent::GamepadButton(GamepadButton::Start, ButtonState::Pressed)
    }

    /// Computes [`InputEvent::movement`].
    pub fn get_movement(&self) -> (m: Option<Movement>)
        ensures
            m == self.movement(),
    {
        let direction = match self {
            InputEvent::Key(Key::Up, _) | InputEvent::Key(Key::W, _) | InputEvent::GamepadButton(
                GamepadButton::DpadUp,
                _,
            ) => KeyboardKeys::KeyUp,
            InputEvent::Key(Key::Left, _) | InputEvent::Key(Key::A, _)
            | InputEvent::GamepadButton(GamepadButton::DpadLeft, _) => KeyboardKeys::KeyLeft,
            InputEvent::Key(Key::Right, _) | InputEvent::Key(Key::D, _)
            | InputEvent::GamepadButton(GamepadButton::DpadRight, _) => KeyboardKeys::KeyRight,
            InputEvent::Key(Key::Down, _) | InputEvent::Key(Key::S, _)
            | InputEvent::GamepadButton(GamepadButton::DpadDown, _) => KeyboardKeys::KeyDown,
            _ => { return None; },
        };
        match self {
            InputEvent::Key(_, ButtonState::Pressed) | InputEvent::GamepadButton(
                _,
                ButtonState::Pressed,
            ) => Some(Movement::Press(direction)),
            InputEvent::Key(_, ButtonState::Released) | InputEvent::GamepadButton(
                _,
                ButtonState::Released,
            ) => Some(Movement::Release(direction)),
            _ => None,
        }
    }

    /// Computes [`InputEvent::is_confirm`].
    pub fn confirms(&self) -> (b: bool)
        ensures
            b == self.is_confirm(),
    {
        matches!(self, InputEvent::Key(Key::Return, ButtonState::Pressed))
    }

    /// Computes [`InputEvent::is_quit`].
    pub fn quits(&self) -> (b: bool)
        ensures
            b == self.is_quit(),
    {
        matches!(self, InputEvent::Key(Key::Escape, ButtonState::Pressed))
    }

    /// Computes [`InputEvent::is_pause`].
    pub fn pauses(&self) -> (b: bool)
        ensures
            b == self.is_pause(),
    {
        match self {
            InputEvent::Key(Key::P, ButtonState::Pressed) => true,
            InputEvent::Key(Key::Pause, ButtonState::Pressed) => true,
            InputEvent::GamepadButton(GamepadButton::Start, ButtonState::Pressed) => true,
            _ => false,
        }
    }

    /// Computes [`InputEvent::is_leave`].
    pub fn leaves(&self) -> (b: bool)
        ensures
            b == self.is_leave(),
    {
        match self {
            InputEvent::Key(Key::Escape, ButtonState::Pressed) => true,
            InputEvent::Key(Key::Return, ButtonState::Pressed) => true,
            InputEvent::GamepadButton(GamepadButton::Start, ButtonState::Pressed) => true,
            _ => false,
        }
    }
}

} // verus!
