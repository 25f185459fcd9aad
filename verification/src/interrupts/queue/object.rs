//! Common trait for objects that can be sent to an `ISRQueue`.

use vstd::prelude::*;

use crate::register::RegisterOp;

verus! {

/// Objects that can be serviced through an `ISRQueue`.
pub trait ISRObject: Sized {
    /// Output of the ISR task / job / interaction.
    type Output;

    /// Triggers the object to interact with the ISR: the register accesses that start it.
    fn trigger(&mut self) -> Vec<RegisterOp>;
}

} // verus!
