//! Typed GPIO pin abstraction.

use vstd::prelude::*;

use super::GPIOAny;
use crate::gpio::{pin_fits, control_address, pad_address, status_address, IOUSER, PADUSER};
use crate::register::RegisterOp;

verus! {

/// The GPIO pin `N`, chosen at compile time.
pub struct GPIOTyped<const N: usize>;

impl<const N: usize> GPIOTyped<N> {
    /// Takes control over the pin.
    pub fn instance() -> Self {
        GPIOTyped
    }

    /// Returns the address of the control register of this GPIO.
    pub fn control(&self) -> (r: usize)
        requires
            pin_fits(N as int),
        ensures
            r == control_address(N as int),
    {
        IOUSER + (0x08 * N) + 0x04
    }

    /// Returns the address of the status register of this GPIO.
    pub fn status(&self) -> (r: usize)
        requires
            pin_fits(N as int),
        ensures
            r == status_address(N as int),
    {
        IOUSER + (0x08 * N)
    }

    /// Returns the address of the pad register of this GPIO.
    pub fn pad(&self) -> (r: usize)
        requires
            pin_fits(N as int),
        ensures
            r == pad_address(N as int),
    {
        PADUSER + (0x04 * N) + 0x04
    }

    /// The two writes that give this pin the function `control` and the pad
    /// configuration `pad`.
    pub fn configure(&self, control: u32, pad: u32) -> (ops: Vec<RegisterOp>)
        requires
            pin_fits(N as int),
        ensures
            ops@ == seq![
                RegisterOp::Write { address: control_address(N as int) as usize, value: control },
                RegisterOp::Write { address: pad_address(N as int) as usize, value: pad },
            ],
    {
        let mut ops: Vec<RegisterOp> = Vec::new();
        ops.push(RegisterOp::Write { address: self.control(), value: control });
        ops.push(RegisterOp::Write { address: self.pad(), value: pad });
        ops
    }
}

impl<const N: usize> From<GPIOTyped<N>> for GPIOAny {
    /// Forgets the pin number in the type (kept modulo 256).
    fn from(_pin: GPIOTyped<N>) -> (r: Self) {
        GPIOAny::new(#[verifier::truncate] (N as u8))
    }
}

impl<const N: usize> vstd::std_specs::convert::FromSpecImpl<GPIOTyped<N>> for GPIOAny {
    open spec fn obeys_from_spec() -> bool {
        true
    }

    open spec fn from_spec(_pin: GPIOTyped<N>) -> Self {
        GPIOAny::spec_new(N as u8)
    }
}

} // verus!
