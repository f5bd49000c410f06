//! Pointer motion, accumulated into the pitch and the yaw of the view.

use vstd::prelude::*;
use crate::input::InputEvent;

verus! {

/// What a [`Mouse`] holds, as mathematical integers.
pub struct MouseView {
    /// Accumulated pitch, in fixed-point degrees.
    pub vertical_axis: int,
    /// Accumulated yaw, in fixed-point degrees.
    pub horizontal_axis: int,
}

impl MouseView {
    /// The axes after the pointer moved by `(dx, dy)`: `dy` is added to the
    /// pitch, `dx` is taken from the yaw.
    pub open spec fn moved(self, dx: int, dy: int) -> MouseView {
        MouseView { vertical_axis: self.vertical_axis + dy, horizontal_axis: self.horizontal_axis - dx }
    }

    /// The axes after `event`: only pointer motion changes them.
    pub open spec fn after_event(self, event: InputEvent) -> MouseView {
        self.moved(event.motion().0, event.motion().1)
    }

    /// Whether both axes can be held in an `i64`.
    pub open spec fn representable(self) -> bool {
        &&& i64::MIN <= self.vertical_axis <= i64::MAX
        &&& i64::MIN <= self.horizontal_axis <= i64::MAX
    }
}

/// A pointer motion takes its `dx` from the yaw and adds its `dy` to the
/// pitch, whatever the axes hold: nothing is clamped, scaled or forgotten.
pub proof fn lemma_motion_shifts_axes(mouse: MouseView, dx: i64, dy: i64)
    ensures
        mouse.after_event(InputEvent::MouseMotion { dx, dy }) == (MouseView {
            vertical_axis: mouse.vertical_axis + dy,
            horizontal_axis: mouse.horizontal_axis - dx,
        }),
{
}

/// Motions add up, whatever their order: two motions in a row leave the
/// pitch at the sum of their `dy` and the yaw at minus the sum of their `dx`
/// beyond where they were, and swapping the two changes nothing.
pub proof fn lemma_motions_add_up(mouse: MouseView, dx1: int, dy1: int, dx2: int, dy2: int)
    ensures
        mouse.moved(dx1, dy1).moved(dx2, dy2) == mouse.moved(dx1 + dx2, dy1 + dy2),
        mouse.moved(dx1, dy1).moved(dx2, dy2) == mouse.moved(dx2, dy2).moved(dx1, dy1),
        mouse.moved(dx1, dy1).moved(dx2, dy2).vertical_axis == mouse.vertical_axis + dy1 + dy2,
        mouse.moved(dx1, dy1).moved(dx2, dy2).horizontal_axis == mouse.horizontal_axis - dx1 - dx2,
{
}

/// The two accumulators. Neither is ever clamped or reset.
#[derive(Debug)]
pub struct Mouse {
    pub vertical_axis: i64,
    pub horizontal_axis: i64,
}

impl View for Mouse {
    type V = MouseView;

    open spec fn view(&self) -> MouseView {
        MouseView { vertical_axis: self.vertical_axis as int, horizontal_axis: self.horizontal_axis as int }
    }
}

impl Default for Mouse {
    fn default() -> (mouse: Mouse)
        ensures
            mouse.vertical_axis == 0,
            mouse.horizontal_axis == 0,
    {
        Mouse::new(0, 0)
    }
}

impl Mouse {
    pub fn new(pitch: i64, yaw: i64) -> (mouse: Mouse)
        ensures
            mouse.vertical_axis == pitch,
            mouse.horizontal_axis == yaw,
        no_unwind
    {
        Mouse { vertical_axis: pitch, horizontal_axis: yaw }
    }

    /// Tests whether `event` can be accumulated: whether both axes still fit
    /// in an `i64` once its motion is added.
    pub fn accepts(&self, event: &InputEvent) -> (accepted: bool)
        ensures
            accepted == self@.after_event(*event).representable(),
        no_unwind
    {
        match event {
            InputEvent::MouseMotion { dx, dy } => {
                let yaw: i128 = self.horizontal_axis as i128 - *dx as i128;
                let pitch: i128 = self.vertical_axis as i128 + *dy as i128;
                i64::MIN as i128 <= yaw && yaw <= i64::MAX as i128 && i64::MIN as i128 <= pitch && pitch
                    <= i64::MAX as i128
            },
            _ => true,
        }
    }

    /// Accumulates the motion that `event` carries, if any.
    pub fn process_mouse_event(&mut self, event: &InputEvent)
        requires
            old(self)@.after_event(*event).representable(),
        ensures
            final(self)@ == old(self)@.after_event(*event),
        no_unwind
    {
        match event {
            InputEvent::MouseMotion { dx, dy } => {
                self.horizontal_axis = self.horizontal_axis - *dx;
                self.vertical_axis = self.vertical_axis + *dy;
            },
            _ => {},
        }
    }
}

} // verus!
