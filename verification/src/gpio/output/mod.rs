//! Control over GPIO pins in Output mode.

pub mod any;
pub mod typed;

pub use any::OutputAny;
pub use typed::OutputTyped;

use vstd::prelude::*;

use crate::register::RegisterOp;

verus! {

/// Common trait for all abstractions interacting with a GPIO pin's output.
pub trait Output {
    /// The output can be driven: its pin lies in one of the two banks of 32 pins.
    spec fn drivable(&self) -> bool;

    /// Returns `true` when the output can be driven.
    fn can_drive(&self) -> (r: bool)
        ensures
            r == self.drivable(),
    ;

    /// Toggles ON / OFF the output level. Does not care for the previous output state.
    fn toggle(&mut self) -> RegisterOp
        requires
            old(self).drivable(),
    ;

    /// Drives the output high.
    fn set_high(&mut self) -> RegisterOp
        requires
            old(self).drivable(),
    ;

    /// Drives the output low.
    fn set_low(&mut self) -> RegisterOp
        requires
            old(self).drivable(),
    ;
}

} // verus!
