//! Types shared by the whole car.

use vstd::prelude::*;

verus! {

/// What the motor is asked to do.
#[derive(PartialEq, Eq, Structural, Debug, Clone, Copy)]
pub enum Direction {
    Idle,
    Accelerate,
    Reverse,
    Brake,
}

/// Marker for the car itself.
#[derive(Clone, Copy)]
pub struct Car;

/// The commands of the cruise-control stalk.
#[derive(PartialEq, Eq, Structural, Debug, Clone, Copy)]
pub enum CruiseControl {
    Res,
    Cancel,
    Plus,
    Minus,
}

} // verus!
