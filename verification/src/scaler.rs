//! The errors and rounding modes of a scaler.

use vstd::prelude::*;

verus! {

/// An error than can occur when building a scaler.
#[derive(Debug, Clone, Copy, PartialEq, Eq, Structural)]
pub enum HoriScalerError {
    /// The maximum value is less than the minimum value.
    MaxLessThanMin,
    /// The initial value is not within the minimum and maximum values.
    SetValNotInRange,
}

/// Determines how the value of a scaler is rounded when it is modified.
#[derive(Default, Debug, Clone, Copy, PartialEq, Eq, Structural)]
pub enum ScalerRound {
    /// The value is not rounded and left as is.
    ///
    /// **Note**: This is the default.
    #[default]
    Unrounded,
    /// The value is rounded to increments of the small step.
    Step,
    /// The value is rounded to the nearest whole number.
    Int,
}

} // verus!
