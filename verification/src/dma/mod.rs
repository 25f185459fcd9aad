//! DMA module.

use vstd::prelude::*;

use crate::register::RegisterOp;

verus! {

/// Interrupt status register of the first interrupt line of the first core.
pub const INTSTATUS: usize = 0x5000040C;

/// Distance between the interrupt registers of two cores.
pub const INTCPUSTRIDE: usize = 0x20;

/// Distance between the interrupt registers of the two interrupt lines of a core.
pub const INTHALFSTRIDE: usize = 0x20;

/// Interrupt service logic of the DMA interrupt line `half` of the core `cpu`, given its
/// interrupt status `status`: the pending interrupts are cleared by writing them back.
pub fn handler(cpu: usize, half: usize, status: u32) -> (op: RegisterOp)
    requires
        INTSTATUS + INTCPUSTRIDE * cpu + INTHALFSTRIDE * half <= usize::MAX,
    ensures
        op == (RegisterOp::Write {
            address: (INTSTATUS + INTCPUSTRIDE * cpu + INTHALFSTRIDE * half) as usize,
            value: status,
        }),
{
    RegisterOp::Write { address: INTSTATUS + (INTCPUSTRIDE * cpu) + (INTHALFSTRIDE * half), value: status }
}

/// Const-style DMA channel.
pub struct ConstChannel<const N: usize>;

/// Dyn-style DMA channel.
pub struct AnyChannel(pub u8);

/// Public trait for all DMA channel types.
pub trait DMAChannel {}

impl<const N: usize> DMAChannel for ConstChannel<N> {}

impl DMAChannel for AnyChannel {}

/// Mask of the transfer count field.
pub const COUNT_MASK: u32 = 0x0FFF_FFFF;

/// The value of a transfer count register: the mode in bits 28 to 31, the count in bits 0
/// to 27.
#[derive(Clone, Copy, Debug, PartialEq, Eq, Structural)]
pub struct TransferCount(pub u32);

impl TransferCount {
    /// The mode field of the register value.
    pub open spec fn mode_spec(self) -> u32 {
        self.0 >> 28
    }

    /// The count field of the register value.
    pub open spec fn count_spec(self) -> u32 {
        self.0 & COUNT_MASK
    }

    /// Creates a `TransferCount` that will trigger once, after `count` transfers (count
    /// reduced to its low 28 bits).
    pub fn oneshot(count: u32) -> (r: Self)
        ensures
            r.0 == count & COUNT_MASK,
            r.mode_spec() == 0,
            r.count_spec() == count % 0x1000_0000,
    {
        let v = count & COUNT_MASK;
        assert(v >> 28 == 0 && v & 0x0FFF_FFFFu32 == count % 0x1000_0000) by (bit_vector)
            requires
                v == count & 0x0FFF_FFFFu32,
        ;
        Self(v)
    }

    /// Creates a `TransferCount` that will repeat itself forever.
    /// Once the count reaches 0, the corresponding interrupt and triggers will launch and
    /// the channel restarts.
    pub fn repeat(count: u32) -> (r: Self)
        ensures
            r.0 == (1u32 << 28) | (count & COUNT_MASK),
            r.mode_spec() == 1,
            r.count_spec() == count % 0x1000_0000,
    {
        let v = (0x1u32 << 28) | (count & COUNT_MASK);
        assert(v >> 28 == 1 && v & 0x0FFF_FFFFu32 == count % 0x1000_0000) by (bit_vector)
            requires
                v == (1u32 << 28) | (count & 0x0FFF_FFFFu32),
        ;
        Self(v)
    }

    /// Creates a `TransferCount` that does not decrement.
    /// The DMA channel will go on forever without triggering any interrupts until ABORT is
    /// raised.
    pub fn endless() -> (r: Self)
        ensures
            r.0 == (0xFu32 << 28) | 1,
            r.mode_spec() == 0xF,
            r.count_spec() == 1,
    {
        let v = (0xFu32 << 28) | 1;
        assert(v >> 28 == 0xF && v & 0x0FFF_FFFFu32 == 1) by (bit_vector)
            requires
                v == (0xFu32 << 28) | 1,
        ;
        Self(v)
    }
}

} // verus!
