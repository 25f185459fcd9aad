//! Pins that implement QSPI functions.

use vstd::prelude::*;

use super::{control_address, pad_address, GPIOTyped};
use crate::register::RegisterOp;

verus! {

/// Force enable the output and select the QSPI function.
pub const CONTROL: u32 = 0xC009;

/// 12 mA strength, enable pull-up, enable Schmitt trigger, fast slew rate.
pub const PADS: u32 = 0x3B;

/// Represents an anonymous QSPI CS pin.
pub struct QMIChipSelect;

impl QMIChipSelect {
    /// Turns one of the QSPI capable pins (0, 8, 19 or 47) into the QSPI chip select.
    pub fn from_pin<const N: usize>(pin: GPIOTyped<N>) -> (r: (Self, Vec<RegisterOp>))
        requires
            N == 0 || N == 8 || N == 19 || N == 47,
        ensures
            r.1@ == seq![
                RegisterOp::Write { address: control_address(N as int) as usize, value: CONTROL },
                RegisterOp::Write { address: pad_address(N as int) as usize, value: PADS },
            ],
    {
        let ops = pin.configure(CONTROL, PADS);
        (QMIChipSelect, ops)
    }
}

} // verus!
