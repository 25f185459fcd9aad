//! Descriptors for TRNG control and access.

use vstd::prelude::*;

use super::TRNGenerator;
use crate::interrupts::interrupts::Interrupt;
use crate::interrupts::queue::node::NodeState;
use crate::interrupts::queue::{ISRObject, ISRQueueNode};
use crate::register::RegisterOp;

verus! {

/// Progress of the filling of a buffer with random data.
#[derive(Clone, Copy, Debug, PartialEq, Eq, Structural)]
pub struct Descriptor {
    /// Current amount of bytes added to the buffer.
    pub current: usize,
    /// Size of the buffer.
    pub size: usize,
}

/// Number of bytes that one service of the interrupt copies: what is left of the buffer,
/// at most the 24 bytes of the six data registers.
pub open spec fn copied_spec(d: Descriptor) -> int {
    let remaining = d.size - d.current;
    if remaining < 24 {
        remaining
    } else {
        24
    }
}

/// Number of random data registers holding the bytes of one service of the interrupt.
pub open spec fn words_needed_spec(d: Descriptor) -> int {
    (copied_spec(d) + 3) / 4
}

/// Byte `k` of the random data words, in little-endian order.
pub open spec fn data_byte(data: Seq<u32>, k: int) -> u8 {
    ((data[k / 4] >> ((k % 4) * 8) as u32) & 0xFF) as u8
}

impl Descriptor {
    /// Returns the number of random data registers to read for one service of the
    /// interrupt.
    pub fn words_needed(&self) -> (r: usize)
        requires
            self.current <= self.size,
        ensures
            r == words_needed_spec(*self),
    {
        let remaining = self.size - self.current;
        let count = if remaining < 24 { remaining } else { 24 };
        (count + 3) / 4
    }

    /// Starts the filling of `buffer`.
    pub fn new(buffer: &[u8]) -> (r: Self)
        ensures
            r == (Descriptor { current: 0, size: buffer@.len() as usize }),
    {
        Self { current: 0, size: buffer.len() }
    }
}

impl ISRObject for Descriptor {
    type Output = ();

    fn trigger(&mut self) -> (ops: Vec<RegisterOp>)
        ensures
            ops@ == super::reset_spec() + crate::interrupts::interrupts::nvic_spec(
                crate::interrupts::interrupts::ISER,
                39,
            ),
            *final(self) == *old(self),
    {
        // Enable the TRNG, then its interrupt.
        let mut ops = TRNGenerator::reset();
        let mut enable = TRNGenerator::enable();
        ops.append(&mut enable);
        ops
    }
}

/// An operation that fills a buffer with random data.
pub struct TRNGOperation {
    /// The `ISRQueueNode` for this operation.
    pub node: ISRQueueNode<Descriptor>,
}

impl TRNGOperation {
    /// Creates the operation that fills `buffer`.
    pub fn new(buffer: &mut [u8]) -> (r: Self)
        ensures
            r.node@ == (NodeState { registered: false, active: false, finished: false, waker: false }),
            r.node.object_spec() == (Descriptor { current: 0, size: old(buffer)@.len() as usize }),
            final(buffer)@ == old(buffer)@,
    {
        let descriptor = Descriptor::new(buffer);
        Self { node: ISRQueueNode::new(descriptor) }
    }
}

} // verus!
