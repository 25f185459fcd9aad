//! Analog to Digital Converter (ADC) module.

pub mod config;
pub mod operation;

pub use config::{Channel, ChannelList, ExternalChannel, Operation, Precision};
pub use operation::ADCOperation;

use vstd::prelude::*;

use crate::interrupts::interrupts::{nvic_spec, Interrupt, ICER, ICPR};
use crate::interrupts::queue::node::NodeState;
use crate::interrupts::queue::ISRQueueNode;
use crate::register::RegisterOp;

verus! {

/// Base address of the ADC registers.
pub const BASE: usize = 0x400A0000;

/// ADC control register.
pub const CONTROL: usize = 0x400A0000;

/// Result of the most recent conversion.
pub const RESULT: usize = 0x400A0004;

/// FIFO control and status register.
pub const FCS: usize = 0x400A0008;

/// Conversion result FIFO.
pub const FIFO: usize = 0x400A000C;

/// Clock divider register.
pub const DIV: usize = 0x400A0010;

/// Raw interrupts register.
pub const INTR: usize = 0x400A0014;

/// Interrupt enable register.
pub const INTE: usize = 0x400A0018;

/// Interrupt force register.
pub const INTF: usize = 0x400A001C;

/// Interrupt status register.
pub const INTS: usize = 0x400A0020;

/// The descriptor type of the ADC ISR.
pub type Descriptor = ISRQueueNode<ADCOperation>;

/// The initialized ADC.
#[derive(Clone, Copy)]
pub struct ADCEngine;

impl Interrupt for ADCEngine {
    open spec fn number_spec() -> nat {
        35
    }

    fn number() -> (n: usize) {
        35
    }
}

impl ADCEngine {
    /// Creates a new oneshot conversion.
    pub fn oneshot(&mut self, channel: Channel, precision: Precision) -> (r: Descriptor)
        ensures
            r@ == (NodeState { registered: false, active: false, finished: false, waker: false }),
            r.object_spec() == (ADCOperation { operation: Operation::Oneshot(channel), precision }),
    {
        let descriptor = ADCOperation { operation: Operation::Oneshot(channel), precision };
        Descriptor::new(descriptor)
    }

    /// Creates a continuous conversion of the given channels.
    pub fn continuous(&mut self, channels: ChannelList, precision: Precision) -> (r: Descriptor)
        ensures
            r@ == (NodeState { registered: false, active: false, finished: false, waker: false }),
            r.object_spec() == (ADCOperation { operation: Operation::Continuous(channels), precision }),
    {
        let descriptor = ADCOperation { operation: Operation::Continuous(channels), precision };
        Descriptor::new(descriptor)
    }
}

/// Initial instance of the `ADCPeripheral`. Must be initialized to convert into an
/// `ADCEngine`.
pub struct ADCPeripheral;

impl ADCPeripheral {
    /// Initializes the ADC engine: enables the ADC and waits until it is ready.
    pub fn init(self) -> (r: (ADCEngine, Vec<RegisterOp>))
        ensures
            r.1@ == seq![
                RegisterOp::SetBits { address: CONTROL, bits: 0b11 },
                RegisterOp::WaitBits { address: CONTROL, bits: 1u32 << 8 },
            ],
    {
        let mut ops: Vec<RegisterOp> = Vec::new();
        ops.push(RegisterOp::SetBits { address: CONTROL, bits: 0b11 });
        ops.push(RegisterOp::WaitBits { address: CONTROL, bits: 1u32 << 8 });
        (ADCEngine, ops)
    }
}

/// List of errors possible in an ADC conversion.
#[derive(Clone, Copy, Debug, PartialEq, Eq, Structural)]
pub enum Error {
    /// The ADC experienced an error during conversion.
    Conversion,
    /// The ADC FIFO was overrun and this value is not valid.
    Overrun,
}

/// The accesses that stop the ADC engine and mask its interrupt.
pub open spec fn disable_spec() -> Seq<RegisterOp> {
    seq![RegisterOp::Write { address: INTE, value: 0 }] + nvic_spec(ICER, 35)
}

/// Returns the accesses that stop the ADC engine and mask its interrupt.
fn disable() -> (ops: Vec<RegisterOp>)
    ensures
        ops@ == disable_spec(),
{
    let mut ops: Vec<RegisterOp> = Vec::new();
    ops.push(RegisterOp::Write { address: INTE, value: 0 });
    let mut nvic = ADCEngine::disable();
    ops.append(&mut nvic);
    ops
}

/// The accesses that acknowledge the ADC interrupt.
pub open spec fn acknowledge_spec() -> Seq<RegisterOp> {
    seq![RegisterOp::Write { address: INTE, value: 0 }] + nvic_spec(ICPR, 35)
}

/// Returns the accesses that acknowledge the ADC interrupt.
fn acknowledge() -> (ops: Vec<RegisterOp>)
    ensures
        ops@ == acknowledge_spec(),
{
    let mut ops: Vec<RegisterOp> = Vec::new();
    ops.push(RegisterOp::Write { address: INTE, value: 0 });
    let mut clear = ADCEngine::clear();
    ops.append(&mut clear);
    ops
}

/// Interrupt service logic of the ADC when no descriptor is being serviced: acknowledges
/// the interrupt and stops the engine.
pub fn handler_idle() -> (ops: Vec<RegisterOp>)
    ensures
        ops@ == acknowledge_spec() + disable_spec(),
{
    let mut ops = acknowledge();
    let mut stop = disable();
    ops.append(&mut stop);
    ops
}

/// Interrupt service logic of the ADC for the descriptor being serviced: acknowledges the
/// interrupt, stops the engine, and marks the descriptor as finished. Returns the accesses
/// and whether the descriptor's task must be woken.
pub fn handler(node: &mut Descriptor) -> (r: (Vec<RegisterOp>, bool))
    ensures
        r.0@ == acknowledge_spec() + disable_spec(),
        final(node)@ == (NodeState { finished: true, ..old(node)@ }),
        final(node).object_spec() == old(node).object_spec(),
        r.1 == old(node)@.waker,
{
    let mut ops = acknowledge();
    // Disable the ISR, it will be enabled by the next operation.
    let mut stop = disable();
    ops.append(&mut stop);
    // Mark the descriptor as finished and wake it.
    node.finish();
    let wake = node.wake();
    (ops, wake)
}

} // verus!
