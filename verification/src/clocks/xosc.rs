//! Definition of the external crystal oscillator.

use vstd::prelude::*;

use super::{ClockList, ClockTable};
use crate::register::RegisterOp;

verus! {

/// The external crystal oscillator, with its nominal frequency in Hz (`None` when the board
/// has no crystal). A frequency of 0 stands for no crystal, like `None`.
#[derive(Clone, Copy, Debug, PartialEq, Eq, Structural)]
pub struct CrystalOscillator(pub Option<u32>);

/// The frequency range selector for a crystal of `freq` Hz.
pub open spec fn range_spec(freq: u32) -> u32 {
    let mhz = freq / 1_000_000;
    if mhz <= 14 {
        0xAA0
    } else if mhz <= 28 {
        0xAA1
    } else if mhz <= 56 {
        0xAA2
    } else {
        0xAA3
    }
}

/// The startup delay, in units of 256 crystal cycles, for a crystal of `freq` Hz.
pub open spec fn delay_spec(freq: u32) -> u32 {
    (freq / 256_000 + 1) as u32
}

/// The startup delay of a crystal of `freq` Hz lasts at least 1 ms (`freq / 1000` cycles),
/// and is the shortest whole number of 256 cycle units that lasts longer than `freq / 1000`
/// cycles.
pub proof fn lemma_startup_delay_at_least_1ms(freq: u32)
    ensures
        delay_spec(freq) * 256 * 1000 > freq,
        (delay_spec(freq) - 1) * 256 * 1000 <= freq,
{
}

/// The frequency range of a crystal grows with its frequency: 0xAA0 up to 15 MHz, 0xAA1 up
/// to 29 MHz, 0xAA2 up to 57 MHz, 0xAA3 above; a faster crystal never gets a lower range.
pub proof fn lemma_range_monotone(low: u32, high: u32)
    requires
        low <= high,
    ensures
        0xAA0 <= range_spec(low) <= range_spec(high) <= 0xAA3,
        low < 15_000_000 ==> range_spec(low) == 0xAA0,
        high >= 57_000_000 ==> range_spec(high) == 0xAA3,
{
}

impl CrystalOscillator {
    /// Base address of the `CrystalOscillator` registers.
    pub const BASE: usize = 0x40048000;

    /// Crystal Oscillator Control.
    pub const CTRL: usize = 0x40048000;

    /// Crystal Oscillator Status.
    pub const STATUS: usize = 0x40048004;

    /// Crystal Oscillator pause control.
    pub const DORMANT: usize = 0x40048008;

    /// Controls the startup delay. This delay should be at least 1 ms.
    pub const STARTUP: usize = 0x4004800C;

    /// A down counter running at the XOSC frequency which counts to zero and stops.
    pub const COUNT: usize = 0x40048010;

    /// The programmed frequency: the nominal one, or 0 without a crystal.
    pub open spec fn freq_spec(self) -> u32 {
        match self.0 {
            Some(freq) => freq,
            None => 0,
        }
    }

    /// The register accesses that start the oscillator.
    pub open spec fn enable_spec(self, wait: bool) -> Seq<RegisterOp> {
        match self.0 {
            Some(freq) if freq > 0 => seq![
                RegisterOp::Write { address: Self::STARTUP, value: delay_spec(freq) },
                RegisterOp::Write { address: Self::CTRL, value: (0xFABu32 << 12) | range_spec(freq) },
            ] + if wait {
                seq![RegisterOp::WaitBits { address: Self::STATUS, bits: 0x8000_0000 }]
            } else {
                Seq::<RegisterOp>::empty()
            },
            _ => Seq::<RegisterOp>::empty(),
        }
    }

    /// Disables the `CrystalOscillator` and reports a frequency of 0.
    pub fn disable(&self, table: &mut ClockTable) -> (op: RegisterOp)
        ensures
            op == (RegisterOp::Write { address: Self::CTRL, value: 0xD1Eu32 << 12 }),
            final(table)@ == old(table)@.update(ClockList::XOsc.index_spec(), 0),
    {
        ClockList::XOsc.write(table, 0);
        RegisterOp::Write { address: Self::CTRL, value: 0xD1Eu32 << 12 }
    }

    /// Enables the `CrystalOscillator`: sets the startup delay and the frequency range,
    /// optionally waits for it to stabilise, and reports its frequency.
    /// Without a crystal (or with a frequency of 0) nothing is done.
    pub fn enable(&self, wait: bool, table: &mut ClockTable) -> (ops: Vec<RegisterOp>)
        ensures
            ops@ == self.enable_spec(wait),
            final(table)@ == if self.freq_spec() > 0 {
                old(table)@.update(ClockList::XOsc.index_spec(), self.freq_spec())
            } else {
                old(table)@
            },
    {
        let mut ops: Vec<RegisterOp> = Vec::new();
        let freq = self.freq();
        if freq > 0 {
            let mhz = freq / 1_000_000;
            let range: u32 = if mhz <= 14 {
                0xAA0
            } else if mhz <= 28 {
                0xAA1
            } else if mhz <= 56 {
                0xAA2
            } else {
                0xAA3
            };
            let delay = (freq / 256_000) + 1;
            ops.push(RegisterOp::Write { address: Self::STARTUP, value: delay });
            ops.push(RegisterOp::Write { address: Self::CTRL, value: (0xFAB << 12) | range });
            if wait {
                ops.push(RegisterOp::WaitBits { address: Self::STATUS, bits: 0x8000_0000 });
            }
            ClockList::XOsc.write(table, freq);
            proof {
                assert(ops@ == self.enable_spec(wait));
            }
        }
        ops
    }

    /// Returns the programmed frequency of the `CrystalOscillator`.
    pub fn freq(&self) -> (r: u32)
        ensures
            r == self.freq_spec(),
    {
        if let Some(freq) = self.0 {
            return freq;
        }
        0
    }

    /// Returns `true` if the status register value `status` reports a stable oscillator.
    pub fn stable(&self, status: u32) -> (r: bool)
        ensures
            r == (status & 0x8000_0000 != 0),
    {
        status & 0x8000_0000 != 0
    }
}

} // verus!
