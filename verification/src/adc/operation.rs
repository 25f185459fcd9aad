//! Descriptors for ADC control and access.

use vstd::prelude::*;

use super::{ADCEngine, Channel, Error, Operation, Precision, CONTROL, FCS, FIFO, INTE, RESULT};
use crate::interrupts::interrupts::{nvic_spec, Interrupt, ISER};
use crate::interrupts::queue::ISRObject;
use super::ExternalChannel;
use crate::register::{lemma_register_after_concat, register_after, RegisterOp};

verus! {

/// One conversion request for the ADC.
#[derive(Clone, Copy, Debug, PartialEq, Eq, Structural)]
pub struct ADCOperation {
    /// The kind of operation performed.
    pub operation: Operation,
    /// The bit-depth precision to use in this operation.
    pub precision: Precision,
}

/// The accesses that start the conversion `op`: clear previous errors, select the input
/// channel, prepare the FIFO interrupt and the precision, enable the interrupt in the NVIC,
/// start the ADC and enable its interrupt.
pub open spec fn trigger_spec(op: ADCOperation) -> Seq<RegisterOp> {
    let select = match op.operation {
        Operation::Oneshot(channel) => seq![
            RegisterOp::ClearBits { address: CONTROL, bits: 0xFu32 << 12 },
            RegisterOp::SetBits { address: CONTROL, bits: channel.number_spec() << 12 },
        ],
        Operation::Continuous(_) => seq![RegisterOp::ClearBits { address: CONTROL, bits: 0xFu32 << 12 }],
    };
    let precision = if op.precision == Precision::Compressed {
        seq![RegisterOp::SetBits { address: FCS, bits: 1u32 << 1 }]
    } else {
        Seq::<RegisterOp>::empty()
    };
    seq![RegisterOp::SetBits { address: CONTROL, bits: 1u32 << 10 }] + select + seq![
        RegisterOp::Write { address: FCS, value: (1u32 << 24) | 1 },
    ] + precision + nvic_spec(ISER, 35) + seq![
        RegisterOp::SetBits { address: CONTROL, bits: (1u32 << 2) | 1 },
        RegisterOp::Write { address: INTE, value: 1 },
    ]
}

impl ADCOperation {
    /// The output of the conversion, given the values of the result register and of the
    /// FIFO register: the 12 bit result, as an error when the FIFO reports one.
    pub fn collect(&mut self, result: u32, fifo: u32) -> (r: Result<u16, (Error, u16)>)
        ensures
            (fifo >> 15) & 1 != 0 ==> r == Err::<u16, (Error, u16)>((Error::Conversion, (result & 0xFFF) as u16)),
            (fifo >> 15) & 1 == 0 ==> r == Ok::<u16, (Error, u16)>((result & 0xFFF) as u16),
    {
        let value = (result & 0xFFF) as u16;
        if (fifo >> 15) & 1 != 0 {
            return Err((Error::Conversion, value));
        }
        Ok(value)
    }
}

impl ISRObject for ADCOperation {
    type Output = Result<u16, (Error, u16)>;

    fn trigger(&mut self) -> (ops: Vec<RegisterOp>)
        ensures
            ops@ == trigger_spec(*old(self)),
            *final(self) == *old(self),
    {
        let mut ops: Vec<RegisterOp> = Vec::new();
        // Clear previous errors.
        ops.push(RegisterOp::SetBits { address: CONTROL, bits: 1u32 << 10 });
        // Configure the conversion.
        match self.operation {
            Operation::Oneshot(channel) => {
                // Select the channel to measure.
                ops.push(RegisterOp::ClearBits { address: CONTROL, bits: 0xFu32 << 12 });
                ops.push(RegisterOp::SetBits { address: CONTROL, bits: channel.number() << 12 });
            },
            Operation::Continuous(_) => {
                ops.push(RegisterOp::ClearBits { address: CONTROL, bits: 0xFu32 << 12 });
            },
        }
        // Prepare the interrupts and set the precision level.
        ops.push(RegisterOp::Write { address: FCS, value: (1u32 << 24) | 1 });
        if self.precision == Precision::Compressed {
            ops.push(RegisterOp::SetBits { address: FCS, bits: 1u32 << 1 });
        }
        // Enable the ADC and the ADC interrupt in the peripheral and the NVIC.
        let mut enable = ADCEngine::enable();
        ops.append(&mut enable);
        ops.push(RegisterOp::SetBits { address: CONTROL, bits: (1u32 << 2) | 1 });
        ops.push(RegisterOp::Write { address: INTE, value: 1 });
        proof {
            assert(ops@ == trigger_spec(*old(self)));
        }
        ops
    }
}

/// The ADC input that selects `channel` in the AINSEL field of the control register: the
/// external channels 0 to 7 (the analog pins 40 to 47) are inputs 0 to 7, and the
/// temperature sensor is input 8.
pub open spec fn ainsel(channel: Channel) -> u32 {
    match channel {
        Channel::Temperature => 8,
        Channel::External(ExternalChannel::Ch0) => 0,
        Channel::External(ExternalChannel::Ch1) => 1,
        Channel::External(ExternalChannel::Ch2) => 2,
        Channel::External(ExternalChannel::Ch3) => 3,
        Channel::External(ExternalChannel::Ch4) => 4,
        Channel::External(ExternalChannel::Ch5) => 5,
        Channel::External(ExternalChannel::Ch6) => 6,
        Channel::External(ExternalChannel::Ch7) => 7,
    }
}

/// The control register value after the trigger of `op`, when it was `control` before.
pub open spec fn control_after_trigger(op: ADCOperation, control: u32) -> u32 {
    register_after(trigger_spec(op), CONTROL, control)
}

/// Whatever the control register held before, once the accesses of a trigger are carried
/// out the ADC is enabled (bit 0) and started (bit 2), and its input selector AINSEL
/// (bits 15:12) holds the requested channel for a single conversion, or input 0 for a
/// continuous one.
pub proof fn lemma_trigger_selects_channel(op: ADCOperation, control: u32)
    ensures
        control_after_trigger(op, control) & 1 == 1,
        (control_after_trigger(op, control) >> 2) & 1 == 1,
        (control_after_trigger(op, control) >> 12) & 0xF == match op.operation {
            Operation::Oneshot(channel) => ainsel(channel),
            Operation::Continuous(_) => 0,
        },
{
    let n: u32 = match op.operation {
        Operation::Oneshot(channel) => channel.number_spec(),
        Operation::Continuous(_) => 0,
    };
    assert(n == match op.operation {
        Operation::Oneshot(channel) => ainsel(channel),
        Operation::Continuous(_) => 0,
    });
    let start = seq![RegisterOp::SetBits { address: CONTROL, bits: 1u32 << 10 }];
    let select = match op.operation {
        Operation::Oneshot(channel) => seq![
            RegisterOp::ClearBits { address: CONTROL, bits: 0xFu32 << 12 },
            RegisterOp::SetBits { address: CONTROL, bits: channel.number_spec() << 12 },
        ],
        Operation::Continuous(_) => seq![RegisterOp::ClearBits { address: CONTROL, bits: 0xFu32 << 12 }],
    };
    let precision = if op.precision == Precision::Compressed {
        seq![RegisterOp::SetBits { address: FCS, bits: 1u32 << 1 }]
    } else {
        Seq::<RegisterOp>::empty()
    };
    let middle = seq![RegisterOp::Write { address: FCS, value: (1u32 << 24) | 1 }] + precision
        + nvic_spec(ISER, 35);
    let end = seq![
        RegisterOp::SetBits { address: CONTROL, bits: (1u32 << 2) | 1 },
        RegisterOp::Write { address: INTE, value: 1 },
    ];
    assert(trigger_spec(op) == start + select + middle + end);
    lemma_register_after_concat(start + select + middle, end, CONTROL, control);
    lemma_register_after_concat(start + select, middle, CONTROL, control);
    lemma_register_after_concat(start, select, CONTROL, control);

    reveal_with_fuel(register_after, 3);
    let v0 = register_after(start, CONTROL, control);
    assert(start.drop_last() =~= Seq::<RegisterOp>::empty());
    assert(v0 == control | (1u32 << 10));

    let v1 = register_after(select, CONTROL, v0);
    match op.operation {
        Operation::Oneshot(channel) => {
            assert(select.drop_last().drop_last() =~= Seq::<RegisterOp>::empty());
            assert(v1 == (v0 & !(0xFu32 << 12)) | (n << 12));
        },
        Operation::Continuous(_) => {
            assert(select.drop_last() =~= Seq::<RegisterOp>::empty());
            assert(v1 == v0 & !(0xFu32 << 12));
            assert(v0 & !(0xFu32 << 12) == (v0 & !(0xFu32 << 12)) | (0u32 << 12)) by (bit_vector);
        },
    }
    assert(v1 == (v0 & !(0xFu32 << 12)) | (n << 12));

    let v2 = register_after(middle, CONTROL, v1);
    lemma_untouched(middle, CONTROL, v1);
    assert(v2 == v1);

    let v3 = register_after(end, CONTROL, v2);
    assert(end.drop_last().drop_last() =~= Seq::<RegisterOp>::empty());
    assert(v3 == v2 | ((1u32 << 2) | 1u32));
    assert(n < 16);
    assert(forall|c: u32, m: u32|
        m < 16 ==> {
            let r = #[trigger] ((((c | (1u32 << 10)) & !(0xFu32 << 12)) | (m << 12)) | ((1u32 << 2) | 1u32));
            &&& r & 1 == 1
            &&& (r >> 2) & 1 == 1
            &&& (r >> 12) & 0xF == m
        }) by (bit_vector);
    assert(v3 == (((control | (1u32 << 10)) & !(0xFu32 << 12)) | (n << 12)) | ((1u32 << 2) | 1u32));
}

/// Accesses that never address `address` leave its register as it was.
proof fn lemma_untouched(ops: Seq<RegisterOp>, address: usize, value: u32)
    requires
        forall|k: int| 0 <= k < ops.len() ==> !(#[trigger] ops[k] matches RegisterOp::Write { address: a, .. } && a == address)
            && !(ops[k] matches RegisterOp::SetBits { address: a, .. } && a == address)
            && !(ops[k] matches RegisterOp::ClearBits { address: a, .. } && a == address),
    ensures
        register_after(ops, address, value) == value,
    decreases ops.len(),
{
    if ops.len() > 0 {
        assert forall|k: int| 0 <= k < ops.drop_last().len() implies !(#[trigger] ops.drop_last()[k] matches RegisterOp::Write { address: a, .. } && a == address)
            && !(ops.drop_last()[k] matches RegisterOp::SetBits { address: a, .. } && a == address)
            && !(ops.drop_last()[k] matches RegisterOp::ClearBits { address: a, .. } && a == address) by {
            assert(ops.drop_last()[k] == ops[k]);
        }
        lemma_untouched(ops.drop_last(), address, value);
        assert(ops.last() == ops[ops.len() - 1]);
    }
}

} // verus!
