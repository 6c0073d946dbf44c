//! Which of the four direction keys are held down.

use vstd::prelude::*;

verus! {

/// A direction key.
#[derive(Clone, Copy, Debug, PartialEq, Eq, Structural)]
pub enum Key {
    Up,
    Down,
    Left,
    Right,
}

/// What happened to a key.
#[derive(Clone, Copy, Debug, PartialEq, Eq, Structural)]
pub enum KeyState {
    Pressed,
    Released,
}

/// The direction keys as last reported: a key counts as pressed from its press
/// until its release.
#[derive(Clone, Copy, Debug, PartialEq, Eq, Structural)]
pub struct InputState {
    pub up_pressed: bool,
    pub down_pressed: bool,
    pub left_pressed: bool,
    pub right_pressed: bool,
}

impl InputState {
    /// The state after one key event. An event without a direction key
    /// (`None`) changes nothing; otherwise exactly that key's flag is set to
    /// whether the key went down.
    pub open spec fn after(self, key: Option<Key>, state: KeyState) -> InputState {
        let pressed = state == KeyState::Pressed;
        match key {
            Some(Key::Up) => InputState { up_pressed: pressed, ..self },
            Some(Key::Down) => InputState { down_pressed: pressed, ..self },
            Some(Key::Left) => InputState { left_pressed: pressed, ..self },
            Some(Key::Right) => InputState { right_pressed: pressed, ..self },
            None => self,
        }
    }

    /// No key is held.
    pub fn new() -> (state: InputState)
        ensures
            !state.up_pressed,
            !state.down_pressed,
            !state.left_pressed,
            !state.right_pressed,
    {
        InputState {
            up_pressed: false,
            down_pressed: false,
            left_pressed: false,
            right_pressed: false,
        }
    }

    /// Records one key event.
    pub fn update(&mut self, key: Option<Key>, state: KeyState)
        ensures
            *final(self) == old(self).after(key, state),
    {
        let pressed = match state {
            KeyState::Pressed => true,
            KeyState::Released => false,
        };
        match key {
            Some(Key::Up) => self.up_pressed = pressed,
            Some(Key::Down) => self.down_pressed = pressed,
            Some(Key::Left) => self.left_pressed = pressed,
            Some(Key::Right) => self.right_pressed = pressed,
            None => {},
        }
    }
}

} // verus!
