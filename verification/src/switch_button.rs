//! The enabled state of a switch button and the side its knob sits on.

use vstd::prelude::*;

verus! {

/// The side of the track the knob sits on.
#[derive(Clone, Copy, Debug, PartialEq, Eq, Structural)]
pub enum KnobSide {
    Left,
    Right,
}

/// The enabled state of a switch button.
#[derive(Clone, Copy, Debug, PartialEq, Eq, Structural)]
pub struct SwitchButtonState {
    pub enabled: bool,
}

impl SwitchButtonState {
    /// A switch with the given initial state.
    pub fn new(enabled: bool) -> (s: SwitchButtonState)
        ensures
            s.enabled == enabled,
    {
        SwitchButtonState { enabled }
    }

    /// Set the enabled state. Returns whether it changed: only then are the callbacks told.
    /// The knob moves to [`knob_side`](Self::knob_side) of the new state.
    pub fn set(&mut self, enabled: bool) -> (changed: bool)
        ensures
            final(self).enabled == enabled,
            changed == (old(self).enabled != enabled),
    {
        let changed = self.enabled != enabled;
        self.enabled = enabled;
        changed
    }

    /// Toggle the enabled state, returning the new state.
    pub fn toggle(&mut self) -> (r: bool)
        ensures
            r == !old(self).enabled,
            final(self).enabled == r,
    {
        let enabled = !self.enabled;
        self.set(enabled);
        enabled
    }

    /// Get the current enabled state.
    pub fn get(&self) -> (r: bool)
        ensures
            r == self.enabled,
    {
        self.enabled
    }

    /// The side the knob sits on: right where enabled, else left.
    pub fn knob_side(&self) -> (side: KnobSide)
        ensures
            side == (if self.enabled {
                KnobSide::Right
            } else {
                KnobSide::Left
            }),
    {
        if self.enabled {
            KnobSide::Right
        } else {
            KnobSide::Left
        }
    }
}

} // verus!
