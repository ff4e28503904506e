//! Traffic lights: a binary state per approach, switched only by the scheduler.

use vstd::prelude::*;
use crate::geometry::Rect;

verus! {

/// The two states a light can show.
#[derive(Clone, Copy, PartialEq, Eq, Structural, Debug)]
pub enum LightState {
    Red,
    Green,
}

/// One traffic light.  The rectangle exists only so a renderer knows where to
/// draw the light; the simulation reads nothing but `state`.
#[derive(Clone, Copy, PartialEq, Eq, Structural, Debug)]
pub struct TrafficLight {
    pub rect: Rect,
    pub state: LightState,
}

impl TrafficLight {
    /// Build a light at a fixed board position with an initial state.
    pub fn new(x: i32, y: i32, w: u32, h: u32, state: LightState) -> (l: TrafficLight)
        ensures
            l == (TrafficLight { rect: Rect { x, y, w, h }, state }),
    {
        TrafficLight { rect: Rect { x, y, w, h }, state }
    }

    /// Switch the light: Green when `is_green`, Red otherwise.  The stored
    /// position is untouched; there is no other transition.
    pub fn update(&mut self, is_green: bool)
        ensures
            final(self).state == (if is_green { LightState::Green } else { LightState::Red }),
            final(self).rect == old(self).rect,
    {
        self.state = if is_green { LightState::Green } else { LightState::Red };
    }
}

} // verus!
