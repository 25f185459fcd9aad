//! Typed abstraction over a GPIO output.

use vstd::prelude::*;

use super::any::{configure_spec, OUTPUT_PAD, RELEASE_CONTROL, RELEASE_PAD};
use super::Output;
use crate::gpio::GPIOTyped;
use crate::register::RegisterOp;

verus! {

/// GPIO coprocessor function that toggles a single IO.
pub const XORBIT: u8 = 5;

/// GPIO coprocessor function that sets a single IO.
pub const SETBIT: u8 = 6;

/// GPIO coprocessor function that clears a single IO.
pub const CLRBIT: u8 = 7;

/// GPIO control configuration that sets the SIO as the controller.
pub const TYPED_OUTPUT_CONTROL: u32 = 0x05;

/// The GPIO pin `N` as an output.
pub struct OutputTyped<const N: usize>;

/// The coprocessor call that runs `function` on pin `n`.
pub open spec fn mcr_spec(function: u8, n: usize) -> RegisterOp {
    RegisterOp::Coprocessor { function, bank: n / 32, operand: n }
}

/// A coprocessor call reaches exactly its pin: it runs `function` on the bank of 32 pins
/// that holds pin `n`, with the pin's number as operand.
pub proof fn lemma_coprocessor_hits_pin(function: u8, n: usize)
    ensures
        mcr_spec(function, n) matches RegisterOp::Coprocessor { function: f, bank, operand } && {
            &&& f == function
            &&& operand == n
            &&& 32 * bank <= n < 32 * bank + 32
        },
{
}

impl<const N: usize> Output for OutputTyped<N> {
    open spec fn drivable(&self) -> bool {
        true
    }

    fn can_drive(&self) -> (r: bool) {
        true
    }

    fn toggle(&mut self) -> (op: RegisterOp)
        ensures
            op == mcr_spec(XORBIT, N),
    {
        RegisterOp::Coprocessor { function: XORBIT, bank: N / 32, operand: N }
    }

    fn set_high(&mut self) -> (op: RegisterOp)
        ensures
            op == mcr_spec(SETBIT, N),
    {
        RegisterOp::Coprocessor { function: SETBIT, bank: N / 32, operand: N }
    }

    fn set_low(&mut self) -> (op: RegisterOp)
        ensures
            op == mcr_spec(CLRBIT, N),
    {
        RegisterOp::Coprocessor { function: CLRBIT, bank: N / 32, operand: N }
    }
}

impl<const N: usize> OutputTyped<N> {
    /// Releases the pin: no controller, pad disabled.
    pub fn into_typed(self) -> (r: (GPIOTyped<N>, Vec<RegisterOp>))
        requires
            crate::gpio::pin_fits(N as int),
        ensures
            r.1@ == configure_spec(N as int, RELEASE_CONTROL, RELEASE_PAD),
    {
        let gpio = GPIOTyped::<N>::instance();
        let ops = gpio.configure(RELEASE_CONTROL, RELEASE_PAD);
        (gpio, ops)
    }
}

impl<const N: usize> GPIOTyped<N> {
    /// Turns the pin into an output driven by the SIO.
    pub fn into_output(self) -> (r: (OutputTyped<N>, Vec<RegisterOp>))
        requires
            crate::gpio::pin_fits(N as int),
        ensures
            r.1@ == configure_spec(N as int, TYPED_OUTPUT_CONTROL, OUTPUT_PAD),
    {
        let ops = self.configure(TYPED_OUTPUT_CONTROL, OUTPUT_PAD);
        (OutputTyped, ops)
    }
}

} // verus!
