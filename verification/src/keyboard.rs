//! Which of the five bound keys are currently held.

use vstd::prelude::*;
use crate::input::{InputEvent, KeyCode};

verus! {

/// Key that moves the player along its look vector.
pub open spec fn forward_key() -> KeyCode {
    KeyCode::Z
}

/// Key that moves the player against its look vector.
pub open spec fn backward_key() -> KeyCode {
    KeyCode::S
}

/// Key that moves the player along its side vector.
pub open spec fn left_key() -> KeyCode {
    KeyCode::Q
}

/// Key that moves the player against its side vector.
pub open spec fn right_key() -> KeyCode {
    KeyCode::D
}

/// Key that starts a jump.
pub open spec fn jump_key() -> KeyCode {
    KeyCode::Space
}

/// The five flags, each true while its key is held.
#[derive(Debug)]
pub struct Keyboard {
    pub move_forward: bool,
    pub move_backward: bool,
    pub move_left: bool,
    pub move_right: bool,
    pub jump: bool,
}

impl Default for Keyboard {
    fn default() -> (keyboard: Keyboard)
        ensures
            keyboard == (Keyboard {
                move_forward: false,
                move_backward: false,
                move_left: false,
                move_right: false,
                jump: false,
            }),
    {
        Keyboard::new(false, false, false, false, false)
    }
}

impl Keyboard {
    pub fn new(
        move_forward: bool,
        move_backward: bool,
        move_left: bool,
        move_right: bool,
        jump: bool,
    ) -> (keyboard: Keyboard)
        ensures
            keyboard == (Keyboard { move_forward, move_backward, move_left, move_right, jump }),
        no_unwind
    {
        Keyboard { move_forward, move_backward, move_left, move_right, jump }
    }

    /// The flags after `event`: a transition of a bound key sets that key's
    /// flag to the new state; everything else changes nothing.
    pub open spec fn after_event(self, event: InputEvent) -> Keyboard {
        Keyboard {
            move_forward: event.held_after(forward_key(), self.move_forward),
            move_backward: event.held_after(backward_key(), self.move_backward),
            move_left: event.held_after(left_key(), self.move_left),
            move_right: event.held_after(right_key(), self.move_right),
            jump: event.held_after(jump_key(), self.jump),
        }
    }

    pub fn process_keyboard_event(&mut self, event: &InputEvent)
        ensures
            *final(self) == old(self).after_event(*event),
        no_unwind
    {
        match event {
            InputEvent::KeyboardInput { key_code, pressed } => {
                if let Some(key_code) = key_code {
                    match key_code {
                        KeyCode::Z => {
                            self.move_forward = *pressed;
                        },
                        KeyCode::S => {
                            self.move_backward = *pressed;
                        },
                        KeyCode::Q => {
                            self.move_left = *pressed;
                        },
                        KeyCode::D => {
                            self.move_right = *pressed;
                        },
                        KeyCode::Space => {
                            self.jump = *pressed;
                        },
                        _ => (),
                    }
                }
            },
            _ => {},
        }
    }
}

} // verus!
