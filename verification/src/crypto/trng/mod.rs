//! True Random Number Generator.

pub mod operation;

pub use operation::{Descriptor, TRNGOperation};

use vstd::prelude::*;

use crate::interrupts::interrupts::{nvic_spec, Interrupt, ICER, ICPR, ISER};
use crate::interrupts::queue::node::NodeState;
use crate::interrupts::queue::ISRQueueNode;
use operation::{copied_spec, data_byte, words_needed_spec};
use crate::interrupts::vector::with_entry;
use crate::interrupts::VectorTable;
use crate::register::RegisterOp;

verus! {

/// Base address of the TRNG register block.
pub const BASE: usize = 0x400F0000;

/// Address of the interrupt mask register.
pub const IMR: usize = 0x400F0100;

/// Address of the interrupt status register.
pub const ISR: usize = 0x400F0104;

/// Address of the interrupt clear register.
pub const ICR: usize = 0x400F0108;

/// Address of the chain length configuration register.
pub const CONFIG: usize = 0x400F010C;

/// Address of the random data registers.
pub const DATA: usize = 0x400F0114;

/// Address of the enable register.
pub const ENABLE: usize = 0x400F012C;

/// Address of the sample count register.
pub const SAMPLES: usize = 0x400F0130;

/// Address of the statistics register.
pub const STATISTICS: usize = 0x400F0134;

/// Address of the debug register.
pub const DEBUG: usize = 0x400F0138;

/// Address of the software reset register.
pub const RESET: usize = 0x400F0140;

/// Address of the debug enable register.
pub const ENABLEDBG: usize = 0x400F01B4;

/// Address of the busy flag register.
pub const BUSY: usize = 0x400F01B8;

/// Address of the collected bits count register.
pub const BITCOUNT: usize = 0x400F01BC;

/// Control over the TRNG peripheral.
/// Enables multicore control over the TRNG source after initialization.
pub struct TRNGPeripheral;

/// The accesses that initialize the TRNG: interrupts masked, engine stopped and reset,
/// chain length and sample count configured, interrupt enabled in the NVIC, pending
/// interrupts cleared and unmasked.
pub open spec fn init_spec() -> Seq<RegisterOp> {
    seq![
        RegisterOp::Write { address: IMR, value: 0xF },
        RegisterOp::Write { address: ENABLE, value: 0 },
        RegisterOp::Write { address: RESET, value: 1 },
        RegisterOp::Write { address: CONFIG, value: 4 },
        RegisterOp::Write { address: SAMPLES, value: 50 },
        RegisterOp::Barrier,
    ] + nvic_spec(ISER, 39) + seq![
        RegisterOp::Write { address: ICR, value: 0xF },
        RegisterOp::Write { address: IMR, value: 0 },
    ]
}

/// The accesses that restart the TRNG, keeping its sample count, chain length and debug
/// configuration across the reset.
pub open spec fn reset_spec() -> Seq<RegisterOp> {
    seq![
        RegisterOp::Write { address: ENABLE, value: 0 },
        RegisterOp::Write { address: BITCOUNT, value: 0 },
        RegisterOp::Save { address: SAMPLES, slot: 0 },
        RegisterOp::Save { address: CONFIG, slot: 1 },
        RegisterOp::Save { address: DEBUG, slot: 2 },
        RegisterOp::Write { address: RESET, value: 1 },
        RegisterOp::Nop,
        RegisterOp::Nop,
        RegisterOp::Write { address: ENABLEDBG, value: 1 },
        RegisterOp::Restore { address: SAMPLES, slot: 0 },
        RegisterOp::Restore { address: CONFIG, slot: 1 },
        RegisterOp::Restore { address: DEBUG, slot: 2 },
        RegisterOp::Write { address: ICR, value: 0xF },
        RegisterOp::Write { address: IMR, value: 0 },
        RegisterOp::Write { address: ENABLE, value: 1 },
    ]
}

/// The accesses that mask the TRNG interrupts.
pub open spec fn disable_spec() -> Seq<RegisterOp> {
    seq![RegisterOp::Write { address: IMR, value: 0xF }] + nvic_spec(ICER, 39)
}

impl TRNGPeripheral {
    /// Takes control over the peripheral. Should only be used during initialization.
    pub fn instance() -> Self {
        TRNGPeripheral
    }

    /// Initializes the peripheral for all modes of operation, installing the handler at
    /// address `handler` in the vector table.
    pub fn init(self, vtable: &mut VectorTable, handler: usize) -> (r: (TRNGenerator, Vec<RegisterOp>))
        ensures
            r.1@ == init_spec(),
            final(vtable)@ == with_entry(old(vtable)@, 55, handler),
    {
        let mut ops: Vec<RegisterOp> = Vec::new();
        // Disable interrupts, stop the engine and reset it.
        ops.push(RegisterOp::Write { address: IMR, value: 0xF });
        ops.push(RegisterOp::Write { address: ENABLE, value: 0 });
        ops.push(RegisterOp::Write { address: RESET, value: 1 });
        // Configure the engine.
        ops.push(RegisterOp::Write { address: CONFIG, value: 4 });
        ops.push(RegisterOp::Write { address: SAMPLES, value: 50 });
        // Install the ISR in the vector table and enable it in the NVIC.
        let mut install = TRNGenerator::install(vtable, handler);
        ops.append(&mut install);
        let mut enable = TRNGenerator::enable();
        ops.append(&mut enable);
        // Reset all interrupts and enable them.
        ops.push(RegisterOp::Write { address: ICR, value: 0xF });
        ops.push(RegisterOp::Write { address: IMR, value: 0 });
        proof {
            assert(ops@ == init_spec());
        }
        (TRNGenerator, ops)
    }
}

/// Multicore safe source of random numbers.
#[derive(Clone, Copy)]
pub struct TRNGenerator;

impl Interrupt for TRNGenerator {
    open spec fn number_spec() -> nat {
        39
    }

    fn number() -> (n: usize) {
        39
    }
}

impl TRNGenerator {
    /// Creates an operation that fills the buffer with random data.
    pub fn fill(&mut self, data: &mut [u8]) -> (r: TRNGOperation)
        ensures
            r.node@ == (NodeState { registered: false, active: false, finished: false, waker: false }),
            r.node.object_spec() == (Descriptor { current: 0, size: old(data)@.len() as usize }),
            final(data)@ == old(data)@,
    {
        TRNGOperation::new(data)
    }

    /// Returns the accesses that reset the TRNG peripheral.
    pub fn reset() -> (ops: Vec<RegisterOp>)
        ensures
            ops@ == reset_spec(),
    {
        let mut ops: Vec<RegisterOp> = Vec::new();
        // Stop the RNG.
        ops.push(RegisterOp::Write { address: ENABLE, value: 0 });
        ops.push(RegisterOp::Write { address: BITCOUNT, value: 0 });
        // Copy the current configuration.
        ops.push(RegisterOp::Save { address: SAMPLES, slot: 0 });
        ops.push(RegisterOp::Save { address: CONFIG, slot: 1 });
        ops.push(RegisterOp::Save { address: DEBUG, slot: 2 });
        // Reset the RNG block and wait for one cycle (reset is not immediate).
        ops.push(RegisterOp::Write { address: RESET, value: 1 });
        ops.push(RegisterOp::Nop);
        ops.push(RegisterOp::Nop);
        // Reconfigure the TRNG peripheral.
        ops.push(RegisterOp::Write { address: ENABLEDBG, value: 1 });
        ops.push(RegisterOp::Restore { address: SAMPLES, slot: 0 });
        ops.push(RegisterOp::Restore { address: CONFIG, slot: 1 });
        ops.push(RegisterOp::Restore { address: DEBUG, slot: 2 });
        // Reset all interrupts and enable them.
        ops.push(RegisterOp::Write { address: ICR, value: 0xF });
        ops.push(RegisterOp::Write { address: IMR, value: 0 });
        // Enable the TRNG.
        ops.push(RegisterOp::Write { address: ENABLE, value: 1 });
        ops
    }
}

/// Returns the accesses that mask the TRNG interrupts.
fn disable() -> (ops: Vec<RegisterOp>)
    ensures
        ops@ == disable_spec(),
{
    let mut ops: Vec<RegisterOp> = Vec::new();
    ops.push(RegisterOp::Write { address: IMR, value: 0xF });
    let mut nvic = TRNGenerator::disable();
    ops.append(&mut nvic);
    ops
}

/// The accesses that acknowledge the TRNG interrupts reported by `status`.
pub open spec fn acknowledge_spec(status: u32) -> Seq<RegisterOp> {
    seq![RegisterOp::Write { address: ICR, value: status }] + nvic_spec(ICPR, 39)
}

/// Returns the accesses that acknowledge the TRNG interrupts reported by `status`.
fn acknowledge(status: u32) -> (ops: Vec<RegisterOp>)
    ensures
        ops@ == acknowledge_spec(status),
{
    let mut ops: Vec<RegisterOp> = Vec::new();
    ops.push(RegisterOp::Write { address: ICR, value: status });
    let mut clear = TRNGenerator::clear();
    ops.append(&mut clear);
    ops
}

/// Interrupt service logic of the TRNG when no operation is being serviced, given the
/// interrupt status `status`: acknowledges the interrupts and masks them.
pub fn handler_idle(status: u32) -> (ops: Vec<RegisterOp>)
    ensures
        ops@ == acknowledge_spec(status) + disable_spec(),
{
    let mut ops = acknowledge(status);
    let mut stop = disable();
    ops.append(&mut stop);
    ops
}

/// Interrupt service logic of the TRNG for the operation being serviced, given the
/// interrupt status `status`, the random data registers that hold data for the operation
/// (`data`) and the buffer being filled.
///
/// A failed health test (Von Neumann, CRNGT or autocorrelation) restarts the generator.
/// Valid data is copied to the buffer, little-endian, from the first unfilled byte; once
/// the buffer is full the interrupts are masked and the operation is finished. Returns the
/// accesses and whether the operation's task must be woken.
pub fn handler(
    node: &mut ISRQueueNode<Descriptor>,
    status: u32,
    data: &[u32],
    buffer: &mut [u8],
) -> (r: (Vec<RegisterOp>, bool))
    requires
        old(node).object_spec().current <= old(node).object_spec().size,
        old(node).object_spec().size == old(buffer)@.len(),
        data@.len() == words_needed_spec(old(node).object_spec()),
    ensures
        ({
            let d = old(node).object_spec();
            let n = copied_spec(d);
            if status & 0b1110 != 0 {
                &&& r.0@ == acknowledge_spec(status) + reset_spec()
                &&& !r.1
                &&& final(node)@ == old(node)@
                &&& final(node).object_spec() == d
                &&& final(buffer)@ == old(buffer)@
            } else if status & 1 != 1 {
                &&& r.0@ == acknowledge_spec(status)
                &&& !r.1
                &&& final(node)@ == old(node)@
                &&& final(node).object_spec() == d
                &&& final(buffer)@ == old(buffer)@
            } else {
                &&& final(buffer)@.len() == old(buffer)@.len()
                &&& forall|k: int|
                    0 <= k < old(buffer)@.len() ==> #[trigger] final(buffer)@[k] == if d.current <= k
                        < d.current + n {
                        data_byte(data@, k - d.current)
                    } else {
                        old(buffer)@[k]
                    }
                &&& final(node).object_spec() == (Descriptor { current: (d.current + n) as usize, ..d })
                &&& if d.current + n >= d.size {
                    &&& r.0@ == acknowledge_spec(status) + disable_spec()
                    &&& final(node)@ == (NodeState { finished: true, ..old(node)@ })
                    &&& r.1 == old(node)@.waker
                } else {
                    &&& r.0@ == acknowledge_spec(status)
                    &&& final(node)@ == old(node)@
                    &&& !r.1
                }
            }
        }),
{
    let mut ops = acknowledge(status);
    // If any of the Von Neumann, CRNGT or autocorrelation errors are set restart.
    if (status & 0b1110) != 0 {
        let mut restart = TRNGenerator::reset();
        ops.append(&mut restart);
        return (ops, false);
    }
    // Without valid data there is nothing to do.
    if (status & 1) != 1 {
        return (ops, false);
    }
    // Read out the random data.
    let ghost d = node.object_spec();
    let current = node.object().current;
    let size = node.object().size;
    let remaining = size - current;
    let count = if remaining < 24 { remaining } else { 24 };
    assert(count == copied_spec(d));
    let mut k: usize = 0;
    while k < count
        invariant
            current == d.current,
            size == d.size,
            count == copied_spec(d),
            current + count <= size,
            size == buffer@.len(),
            size == old(buffer)@.len(),
            data@.len() == words_needed_spec(d),
            k <= count,
            forall|j: int|
                0 <= j < size ==> #[trigger] buffer@[j] == if current <= j < current + k {
                    data_byte(data@, j - current)
                } else {
                    old(buffer)@[j]
                },
        decreases count - k,
    {
        let word = data[k / 4];
        let byte = ((word >> (((k % 4) * 8) as u32)) & 0xFF) as u8;
        buffer[current + k] = byte;
        k = k + 1;
    }
    let descriptor = node.object();
    descriptor.current = current + count;
    // If the request is finished, stop the engine and finish the operation.
    if current + count >= size {
        let mut stop = disable();
        ops.append(&mut stop);
        node.finish();
        let wake = node.wake();
        return (ops, wake);
    }
    (ops, false)
}

} // verus!
