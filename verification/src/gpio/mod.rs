//! General Purpose Input / Output (GPIO) module.

pub mod input;
pub mod output;
pub mod pins;
pub mod qspi;

pub use output::Output;
pub use pins::{GPIOAny, GPIOList, GPIOTyped};

use vstd::prelude::*;

verus! {

/// Number of GPIO pins of the package (QFN-80).
pub const GPIOCOUNT: usize = 48;

/// Base address of the user bank of the IO control registers.
pub const IOUSER: usize = 0x40028000;

/// Base address of the user bank of the pad control registers.
pub const PADUSER: usize = 0x40038000;

/// Address of the status register of GPIO `n`.
pub open spec fn status_address(n: int) -> int {
    IOUSER + 0x08 * n
}

/// Address of the control register of GPIO `n`.
pub open spec fn control_address(n: int) -> int {
    IOUSER + 0x08 * n + 0x04
}

/// Address of the pad register of GPIO `n`.
pub open spec fn pad_address(n: int) -> int {
    PADUSER + 0x04 * n + 0x04
}

/// Every GPIO has registers of its own: distinct pins have distinct status, control and
/// pad registers; each pin's control register follows its status register in the pin's
/// 8 byte slot of the IO bank, and its pad register is the 4 byte slot after the bank's
/// voltage select register, in pin order.
pub proof fn lemma_pin_registers(a: int, b: int)
    requires
        0 <= a,
        0 <= b,
    ensures
        (status_address(a) == status_address(b)) == (a == b),
        (control_address(a) == control_address(b)) == (a == b),
        (pad_address(a) == pad_address(b)) == (a == b),
        control_address(a) == status_address(a) + 4,
        control_address(a) != status_address(b),
        status_address(a) - IOUSER == 8 * a,
        pad_address(a) - PADUSER == 4 * (a + 1),
{
}

/// The registers of GPIO `n` can be addressed.
pub open spec fn pin_fits(n: int) -> bool {
    &&& control_address(n) <= usize::MAX
    &&& pad_address(n) <= usize::MAX
}

} // verus!
