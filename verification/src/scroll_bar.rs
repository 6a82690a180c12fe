//! The axis a scroll bar controls.

use vstd::prelude::*;

verus! {

/// Determines the orientation and axis of a scroll bar.
#[derive(Debug, Clone, Copy, PartialEq, Eq, Structural, Default)]
pub enum ScrollAxis {
    /// The scroll bar controls the x-axis and is oriented horizontally.
    X,
    /// The scroll bar controls the y-axis and is oriented vertically.
    ///
    /// **Note**: This is the default.
    #[default]
    Y,
}

impl ScrollAxis {
    /// Picks the component of a pair that belongs to this axis: `x` for `X`, `y` for `Y`.
    pub fn pick<T: Copy>(self, x: T, y: T) -> (r: T)
        ensures
            r == (match self {
                ScrollAxis::X => x,
                ScrollAxis::Y => y,
            }),
    {
        match self {
            ScrollAxis::X => x,
            ScrollAxis::Y => y,
        }
    }
}

} // verus!
