//! The state of the keys and mouse buttons for the current frame.
use vstd::prelude::*;
use crate::error::{Error, ErrorType};
use crate::text::{decimal, push_decimal, str_eq};

verus! {

/// The keys the game reacts to.
#[derive(Debug, Clone, Copy, PartialEq, Eq, Structural)]
pub enum Key {
    CtrlLeft,
}

impl Key {
    /// The key with the given engine name, if the game knows it.
    pub fn from_name(name: &str) -> (k: Option<Key>)
        ensures
            k == (if name@ == "ControlLeft"@ { Some(Key::CtrlLeft) } else { None::<Key> }),
    {
        if str_eq(name, "ControlLeft") {
            Some(Key::CtrlLeft)
        } else {
            None
        }
    }
}

/// The state of a button, as seen in one frame.
#[derive(Debug, Clone, Copy, PartialEq, Eq, Structural)]
pub enum ButtonState {
    Released,
    JustReleased,
    Pressed,
    JustPressed,
}

/// The state a button settles into once the frame that changed it is over.
pub open spec fn settled(s: ButtonState) -> ButtonState {
    match s {
        ButtonState::JustPressed => ButtonState::Pressed,
        ButtonState::JustReleased => ButtonState::Released,
        other => other,
    }
}

/// Whether a state means the button is held down.
pub open spec fn is_down(s: ButtonState) -> bool {
    s == ButtonState::JustPressed || s == ButtonState::Pressed
}

impl ButtonState {
    /// Ends the "just" part of a state change.
    pub fn flip(&mut self)
        ensures
            *final(self) == settled(*old(self)),
    {
        match self {
            ButtonState::JustPressed => {
                *self = ButtonState::Pressed;
            },
            ButtonState::JustReleased => {
                *self = ButtonState::Released;
            },
            _ => {},
        }
    }

    /// Whether the button is held down.
    pub fn pressed(self) -> (b: bool)
        ensures
            b == is_down(self),
    {
        self == ButtonState::JustPressed || self == ButtonState::Pressed
    }
}

/// The mouse buttons the engine reports.
#[derive(Debug, Clone, Copy, PartialEq, Eq, Structural)]
pub enum MouseButton {
    Left,
    Right,
    Center,
}

/// The engine identifier of a mouse button.
pub open spec fn mouse_button_id(b: MouseButton) -> nat {
    match b {
        MouseButton::Left => 0,
        MouseButton::Right => 1,
        MouseButton::Center => 2,
    }
}

/// The message of the error for an unknown mouse button identifier.
pub open spec fn bad_mouse_button_message(value: u8) -> Seq<char> {
    decimal(value as nat) + " is not a valid mouse button identifier"@
}

impl MouseButton {
    /// The slot of the button in the input state.
    pub fn index(self) -> (i: usize)
        ensures
            i == mouse_button_id(self),
    {
        match self {
            MouseButton::Left => 0,
            MouseButton::Right => 1,
            MouseButton::Center => 2,
        }
    }

    /// The button with the given engine identifier.
    pub fn from_u8(value: u8) -> (r: Result<MouseButton, Error>)
        ensures
            value < 3 <==> r is Ok,
            r matches Ok(b) ==> mouse_button_id(b) == value,
            r matches Err(e) ==> e.inner.ty == ErrorType::Undefined && e.inner.message@
                == bad_mouse_button_message(value) && e.inner.chained is None,
    {
        match value {
            0 => Ok(MouseButton::Left),
            1 => Ok(MouseButton::Right),
            2 => Ok(MouseButton::Center),
            _ => {
                let mut message = String::new();
                push_decimal(&mut message, value as u32);
                message.append(" is not a valid mouse button identifier");
                assert(message@ =~= bad_mouse_button_message(value));
                Err(Error::new(ErrorType::Undefined, "src/inputs.rs", 129, message))
            },
        }
    }
}

/// The button part of the user input for the current frame.
#[derive(Debug, Clone, Copy)]
pub struct InputState {
    pub mouse_buttons: [ButtonState; 3],
    pub left_ctrl: ButtonState,
}

impl InputState {
    /// Every button released.
    pub fn new() -> (s: Self)
        ensures
            forall|i: int| 0 <= i < 3 ==> s.mouse_buttons@[i] == ButtonState::Released,
            s.left_ctrl == ButtonState::Released,
    {
        InputState {
            mouse_buttons: [ButtonState::Released, ButtonState::Released, ButtonState::Released],
            left_ctrl: ButtonState::Released,
        }
    }

    /// The state of a mouse button.
    pub fn mouse_button_state(&self, button: MouseButton) -> (s: ButtonState)
        ensures
            s == self.mouse_buttons@[mouse_button_id(button) as int],
    {
        match button {
            MouseButton::Left => self.mouse_buttons[0],
            MouseButton::Right => self.mouse_buttons[1],
            MouseButton::Center => self.mouse_buttons[2],
        }
    }

    /// Whether the right button went down in this frame.
    pub fn right_mouse_clicked(&self) -> (b: bool)
        ensures
            b == (self.mouse_buttons@[1] == ButtonState::JustPressed),
    {
        self.mouse_button_state(MouseButton::Right) == ButtonState::JustPressed
    }

    /// Whether the left button went down in this frame.
    pub fn left_mouse_clicked(&self) -> (b: bool)
        ensures
            b == (self.mouse_buttons@[0] == ButtonState::JustPressed),
    {
        self.mouse_button_state(MouseButton::Left) == ButtonState::JustPressed
    }

    /// Records the new state of a mouse button.
    pub fn update_mouse_buttons(&mut self, button: MouseButton, pressed: ButtonState)
        ensures
            final(self).mouse_buttons@ == old(self).mouse_buttons@.update(
                mouse_button_id(button) as int,
                pressed,
            ),
            final(self).left_ctrl == old(self).left_ctrl,
    {
        let b0 = self.mouse_buttons[0];
        let b1 = self.mouse_buttons[1];
        let b2 = self.mouse_buttons[2];
        self.mouse_buttons = match button {
            MouseButton::Left => [pressed, b1, b2],
            MouseButton::Right => [b0, pressed, b2],
            MouseButton::Center => [b0, b1, pressed],
        };
        assert(self.mouse_buttons@ =~= old(self).mouse_buttons@.update(
            mouse_button_id(button) as int,
            pressed,
        ));
    }

    /// Records the new state of a key.
    pub fn update_keys(&mut self, key: Key, pressed: ButtonState)
        ensures
            final(self).left_ctrl == pressed,
            final(self).mouse_buttons == old(self).mouse_buttons,
    {
        match key {
            Key::CtrlLeft => {
                self.left_ctrl = pressed;
            },
        }
    }
}

} // verus!
