//! Register operations planned by the library and carried out by the caller.

use vstd::prelude::*;

verus! {

/// One access to a memory mapped register.
#[derive(Clone, Copy, Debug, PartialEq, Eq, Structural)]
pub enum RegisterOp {
    /// Writes `value` to the register at `address`.
    Write { address: usize, value: u32 },
    /// Sets the `bits` of the register at `address` through its atomic set alias.
    SetBits { address: usize, bits: u32 },
    /// Clears the `bits` of the register at `address` through its atomic clear alias.
    ClearBits { address: usize, bits: u32 },
    /// Waits until any of the `bits` of the register at `address` reads as set.
    WaitBits { address: usize, bits: u32 },
    /// Data and instruction synchronization barrier.
    Barrier,
    /// One cycle without operation.
    Nop,
    /// Reads the register at `address` into the scratch slot `slot`.
    Save { address: usize, slot: usize },
    /// Writes the scratch slot `slot` to the register at `address`.
    Restore { address: usize, slot: usize },
    /// Runs the GPIO coprocessor function `function` on the bank `bank` with operand
    /// `operand`.
    Coprocessor { function: u8, bank: usize, operand: usize },
}

/// The value that the register at `address` holds after `op`, when it held `value` before.
/// Only writes and set or clear aliases to that very address change it.
pub open spec fn register_step(op: RegisterOp, address: usize, value: u32) -> u32 {
    match op {
        RegisterOp::Write { address: a, value: v } => if a == address { v } else { value },
        RegisterOp::SetBits { address: a, bits } => if a == address { value | bits } else { value },
        RegisterOp::ClearBits { address: a, bits } => if a == address { value & !bits } else { value },
        _ => value,
    }
}

/// The value that the register at `address` holds after the accesses `ops`, in order,
/// when it held `value` before.
pub open spec fn register_after(ops: Seq<RegisterOp>, address: usize, value: u32) -> u32
    decreases ops.len(),
{
    if ops.len() == 0 {
        value
    } else {
        register_step(ops.last(), address, register_after(ops.drop_last(), address, value))
    }
}

/// Carrying out two access sequences one after the other is carrying out their
/// concatenation.
pub proof fn lemma_register_after_concat(first: Seq<RegisterOp>, then: Seq<RegisterOp>, address: usize, value: u32)
    ensures
        register_after(first + then, address, value) == register_after(
            then,
            address,
            register_after(first, address, value),
        ),
    decreases then.len(),
{
    if then.len() == 0 {
        assert(first + then =~= first);
    } else {
        lemma_register_after_concat(first, then.drop_last(), address, value);
        assert((first + then).drop_last() =~= first + then.drop_last());
    }
}

/// Of the value `1 << m`, bit `k` is set exactly when `k` is `m`.
pub proof fn lemma_single_bit(m: u32)
    requires
        m < 32,
    ensures
        forall|k: u32| k < 32 ==> (#[trigger] ((1u32 << m) >> k) & 1 == 1 <==> k == m),
{
    assert(forall|k: u32, j: u32| k < 32 && j < 32 ==> (#[trigger] ((1u32 << j) >> k) & 1 == 1 <==> k == j))
        by (bit_vector);
}

} // verus!
