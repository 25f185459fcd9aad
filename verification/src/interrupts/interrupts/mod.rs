//! Interrupt control in the NVIC and in the vector table.

use vstd::prelude::*;

use super::{Vector, VectorTable};
use crate::interrupts::vector::with_entry;
use crate::register::{lemma_single_bit, RegisterOp};

verus! {

/// Interrupt Set-Enable Registers.
pub const ISER: usize = 0xE000E100;

/// Interrupt Clear-Enable Registers.
pub const ICER: usize = 0xE000E180;

/// Interrupt Set-Pending Registers.
pub const ISPR: usize = 0xE000E200;

/// Interrupt Clear-Pending Registers.
pub const ICPR: usize = 0xE000E280;

/// The NVIC register of the bank `base` that holds interrupt `number` can be addressed.
pub open spec fn nvic_fits(base: usize, number: nat) -> bool {
    base + 4 * (number / 32) <= usize::MAX
}

/// The accesses that hit interrupt `number` in the NVIC register bank `base`: the bit of
/// the interrupt written in the register of its group of 32, then a barrier.
pub open spec fn nvic_spec(base: usize, number: nat) -> Seq<RegisterOp> {
    seq![
        RegisterOp::Write {
            address: (base + 4 * (number / 32)) as usize,
            value: 1u32 << (number % 32) as u32,
        },
        RegisterOp::Barrier,
    ]
}

/// The NVIC accesses for interrupt `number` hit that interrupt and no other: one write to a
/// word-aligned register of the bank, `r` words past `base`, the register of the group of
/// 32 interrupts holding `number`, whose bit `k` is set exactly when `32 * r + k` is
/// `number`, followed by a barrier.
pub proof fn lemma_nvic_hits_number(base: usize, number: nat)
    requires
        nvic_fits(base, number),
    ensures
        nvic_spec(base, number).len() == 2,
        nvic_spec(base, number)[1] == RegisterOp::Barrier,
        nvic_spec(base, number)[0] matches RegisterOp::Write { address, value } && {
            &&& address >= base
            &&& (address - base) % 4 == 0
            &&& 32 * ((address - base) / 4) <= number < 32 * ((address - base) / 4) + 32
            &&& forall|k: u32| k < 32 ==> (#[trigger] ((value >> k) & 1) == 1 <==> 32 * ((address - base) / 4) + k == number)
        },
{
    let m = (number % 32) as u32;
    lemma_single_bit(m);
    let address = (base + 4 * (number / 32)) as usize;
    assert((address - base) / 4 == number / 32);
    assert forall|k: u32| k < 32 implies (#[trigger] (((1u32 << m) >> k) & 1) == 1 <==> 32 * ((address - base) / 4) + k == number) by {
        assert(((1u32 << m) >> k) & 1 == 1 <==> k == m);
    }
}

/// Returns the accesses that hit interrupt `number` in the NVIC register bank `base`.
pub fn nvic_ops(base: usize, number: usize) -> (ops: Vec<RegisterOp>)
    requires
        nvic_fits(base, number as nat),
    ensures
        ops@ == nvic_spec(base, number as nat),
{
    let mut ops: Vec<RegisterOp> = Vec::new();
    ops.push(
        RegisterOp::Write {
            address: base + 4 * (number / 32),
            value: 1u32 << ((number % 32) as u32),
        },
    );
    ops.push(RegisterOp::Barrier);
    ops
}

/// Common trait for all the peripherals that interact with an interrupt.
pub trait Interrupt {
    /// The interrupt number: sets the hardware offsets of the control registers and the
    /// position in the vector table.
    spec fn number_spec() -> nat;

    /// Returns the interrupt number.
    fn number() -> (n: usize)
        ensures
            n == Self::number_spec(),
    ;

    /// Enables the interrupt in the NVIC.
    fn enable() -> (ops: Vec<RegisterOp>)
        requires
            nvic_fits(ISER, Self::number_spec()),
        ensures
            ops@ == nvic_spec(ISER, Self::number_spec()),
    {
        nvic_ops(ISER, Self::number())
    }

    /// Disables the interrupt in the NVIC.
    fn disable() -> (ops: Vec<RegisterOp>)
        requires
            nvic_fits(ICER, Self::number_spec()),
        ensures
            ops@ == nvic_spec(ICER, Self::number_spec()),
    {
        nvic_ops(ICER, Self::number())
    }

    /// Clears the pending interrupt in the NVIC.
    fn clear() -> (ops: Vec<RegisterOp>)
        requires
            nvic_fits(ICPR, Self::number_spec()),
        ensures
            ops@ == nvic_spec(ICPR, Self::number_spec()),
    {
        nvic_ops(ICPR, Self::number())
    }

    /// Pends the interrupt in the NVIC.
    fn pend() -> (ops: Vec<RegisterOp>)
        requires
            nvic_fits(ISPR, Self::number_spec()),
        ensures
            ops@ == nvic_spec(ISPR, Self::number_spec()),
    {
        nvic_ops(ISPR, Self::number())
    }

    /// Sets the handler at address `handler` for this interrupt in the vector table,
    /// after the 16 exception entries; then a barrier.
    fn install(table: &mut VectorTable, handler: usize) -> (ops: Vec<RegisterOp>)
        requires
            Self::number_spec() + 16 < 62,
        ensures
            final(table)@ == with_entry(old(table)@, (Self::number_spec() + 16) as usize, handler),
            ops@ == seq![RegisterOp::Barrier],
    {
        let index = Self::number() + 16;
        table.index_mut(index, Vector::target(handler));
        let mut ops: Vec<RegisterOp> = Vec::new();
        ops.push(RegisterOp::Barrier);
        ops
    }
}

} // verus!
