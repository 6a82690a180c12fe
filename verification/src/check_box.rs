//! The selected state of a check box.

use vstd::prelude::*;

verus! {

/// The selected state of a check box.
#[derive(Clone, Copy, Debug, PartialEq, Eq, Structural)]
pub struct CheckBoxState {
    pub selected: bool,
}

impl CheckBoxState {
    /// A check box that is not selected.
    pub fn new() -> (s: CheckBoxState)
        ensures
            !s.selected,
    {
        CheckBoxState { selected: false }
    }

    /// Set the selected state. Returns whether it changed: only then are the fill shown or
    /// hidden and the callbacks told.
    pub fn set_selected(&mut self, selected: bool) -> (changed: bool)
        ensures
            final(self).selected == selected,
            changed == (old(self).selected != selected),
    {
        if self.selected == selected {
            return false;
        }
        self.selected = selected;
        true
    }

    /// Select the check box; returns whether the state changed.
    pub fn select(&mut self) -> (changed: bool)
        ensures
            final(self).selected,
            changed == !old(self).selected,
    {
        self.set_selected(true)
    }

    /// Unselect the check box; returns whether the state changed.
    pub fn unselect(&mut self) -> (changed: bool)
        ensures
            !final(self).selected,
            changed == old(self).selected,
    {
        self.set_selected(false)
    }

    /// Toggle the selection, returning the new state (which always differs from the old).
    pub fn toggle_select(&mut self) -> (r: bool)
        ensures
            r == !old(self).selected,
            final(self).selected == r,
    {
        let selected = !self.selected;
        self.set_selected(selected);
        selected
    }

    /// Whether the check box is selected.
    pub fn is_selected(&self) -> (r: bool)
        ensures
            r == self.selected,
    {
        self.selected
    }
}

} // verus!
