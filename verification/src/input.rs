//! Input events as the controller sees them: key transitions and pointer
//! motion, stripped of everything that belongs to the windowing system.

use vstd::prelude::*;

verus! {

/// The keys that the controller tells apart.
#[derive(Clone, Copy, Debug, PartialEq, Eq, Structural)]
pub enum KeyCode {
    Z,
    S,
    Q,
    D,
    Space,
    /// Any key that has no binding.
    Other,
}

/// One event of the input source.
#[derive(Clone, Copy, Debug, PartialEq, Eq)]
pub enum InputEvent {
    /// A key went down (`pressed`) or up. `key_code` is `None` where the
    /// platform could not name the key.
    KeyboardInput { key_code: Option<KeyCode>, pressed: bool },
    /// The pointer moved by `dx` to the right and `dy` downwards, in
    /// fixed-point units.
    MouseMotion { dx: i64, dy: i64 },
    /// Anything else: window, focus, redraw and the like.
    Other,
}

impl InputEvent {
    /// Whether a key bound to `key_code` is held once this event is applied,
    /// given whether it was `held` before: a transition of that very key
    /// decides, any other event leaves the key as it was.
    pub open spec fn held_after(self, key_code: KeyCode, held: bool) -> bool {
        match self {
            InputEvent::KeyboardInput { key_code: Some(changed), pressed } if changed == key_code => pressed,
            _ => held,
        }
    }

    /// The pointer motion that this event carries, `(0, 0)` where it carries
    /// none.
    pub open spec fn motion(self) -> (int, int) {
        match self {
            InputEvent::MouseMotion { dx, dy } => (dx as int, dy as int),
            _ => (0, 0),
        }
    }
}

} // verus!
