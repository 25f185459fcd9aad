//! Internal Ring Oscillator.

use vstd::prelude::*;

use crate::register::RegisterOp;

verus! {

/// The internal ring oscillator.
pub struct RingOscillator;

impl RingOscillator {
    /// Base address of the ring oscillator registers.
    pub const BASE: usize = 0x400E8000;

    /// Control over the ROSC configuration.
    pub const CONTROL: usize = 0x400E8000;

    /// Control over the drive strength of some phases of the ROSC.
    pub const FREQA: usize = 0x400E8004;

    /// Control over the drive strength of some phases of the ROSC.
    pub const FREQB: usize = 0x400E8008;

    /// Register to change the randomiser seed.
    pub const RANDOM: usize = 0x400E800C;

    /// The control value that enables the oscillator in its default frequency range.
    pub open spec fn enabled_control() -> u32 {
        (0xFABu32 << 12) | 0xFA4
    }

    /// Restores the `RingOscillator` to default enabled mode: both drive strength registers
    /// cleared, then the oscillator enabled.
    pub fn restore(&mut self) -> (ops: Vec<RegisterOp>)
        ensures
            ops@ == seq![
                RegisterOp::Write { address: Self::FREQA, value: 0 },
                RegisterOp::Write { address: Self::FREQB, value: 0 },
                RegisterOp::Write { address: Self::CONTROL, value: Self::enabled_control() },
            ],
    {
        let mut ops: Vec<RegisterOp> = Vec::new();
        ops.push(RegisterOp::Write { address: Self::FREQA, value: 0 });
        ops.push(RegisterOp::Write { address: Self::FREQB, value: 0 });
        ops.push(RegisterOp::Write { address: Self::CONTROL, value: (0xFAB << 12) | 0xFA4 });
        ops
    }
}

} // verus!
