//! Untyped, dynamic GPIO pin abstraction.

use vstd::prelude::*;

use crate::gpio::{control_address, pad_address, status_address, IOUSER, PADUSER};
use crate::register::RegisterOp;

verus! {

/// A GPIO pin chosen at run time.
pub struct GPIOAny(pub(crate) u8);

impl View for GPIOAny {
    /// The pin number.
    type V = u8;

    closed spec fn view(&self) -> u8 {
        self.0
    }
}

impl GPIOAny {
    /// The pin `n`.
    pub closed spec fn spec_new(n: u8) -> Self {
        GPIOAny(n)
    }

    /// The pin `n` has number `n`.
    pub proof fn lemma_spec_new(n: u8)
        ensures
            Self::spec_new(n)@ == n,
    {
    }

    /// Returns the pin number.
    pub fn number(&self) -> (r: u8)
        ensures
            r == self@,
    {
        self.0
    }

    /// Creates the pin `n`.
    pub fn new(n: u8) -> (r: Self)
        ensures
            r@ == n,
            r == Self::spec_new(n),
    {
        GPIOAny(n)
    }

    /// Returns the address of the control register of this GPIO.
    pub fn control(&self) -> (r: usize)
        ensures
            r == control_address(self@ as int),
    {
        IOUSER + (0x08 * self.0 as usize) + 0x04
    }

    /// Returns the address of the status register of this GPIO.
    pub fn status(&self) -> (r: usize)
        ensures
            r == status_address(self@ as int),
    {
        IOUSER + (0x08 * self.0 as usize)
    }

    /// Returns the address of the pad register of this GPIO.
    pub fn pad(&self) -> (r: usize)
        ensures
            r == pad_address(self@ as int),
    {
        PADUSER + (0x04 * self.0 as usize) + 0x04
    }

    /// The two writes that give this pin the function `control` and the pad
    /// configuration `pad`.
    pub fn configure(&self, control: u32, pad: u32) -> (ops: Vec<RegisterOp>)
        ensures
            ops@ == seq![
                RegisterOp::Write { address: control_address(self@ as int) as usize, value: control },
                RegisterOp::Write { address: pad_address(self@ as int) as usize, value: pad },
            ],
    {
        let mut ops: Vec<RegisterOp> = Vec::new();
        ops.push(RegisterOp::Write { address: self.control(), value: control });
        ops.push(RegisterOp::Write { address: self.pad(), value: pad });
        ops
    }
}

} // verus!
