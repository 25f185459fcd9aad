use rphal::gpio::GPIOTyped;
use rphal::adc::operation::ADCOperation;
use rphal::adc::{
    handler, handler_idle, ADCEngine, ADCPeripheral, Channel, ChannelList, Error,
    ExternalChannel, Operation, Precision, CONTROL, FCS, INTE,
};
use rphal::interrupts::queue::ISRObject;
use rphal::register::RegisterOp;

#[test]
fn channel_numbers() {
    assert_eq!(Channel::External(ExternalChannel::Ch0).number(), 0);
    assert_eq!(Channel::External(ExternalChannel::Ch7).number(), 7);
    assert_eq!(Channel::Temperature.number(), 8);
    assert_eq!(ChannelList::from(Channel::Temperature).bits(), 1 << 8);
    assert_eq!(ChannelList::from(ExternalChannel::Ch3).bits(), 1 << 3);
    let list: ChannelList = Channel::External(ExternalChannel::Ch5).into();
    assert_eq!(list.bits(), 1 << 5);
    assert_eq!(u32::from(Channel::Temperature), 8);
    let number: u32 = ExternalChannel::Ch6.into();
    assert_eq!(number, 6);
}

#[test]
fn channel_list_from_channels() {
    let list = ChannelList::from_channels(&[
        Channel::External(ExternalChannel::Ch1),
        Channel::Temperature,
        Channel::External(ExternalChannel::Ch1),
    ]);
    assert_eq!(list.bits(), (1 << 1) | (1 << 8));
    assert!(list.contains(ChannelList::ch1()));
    assert!(!list.contains(ChannelList::ch2()));
    assert_eq!(ChannelList::from_channels(&[]).bits(), 0);
    assert_eq!(ChannelList::empty().union(ChannelList::ch0()).bits(), 1);
}

#[test]
fn adc_init_waits_for_ready() {
    let (_engine, ops) = ADCPeripheral.init();
    assert_eq!(
        ops,
        vec![
            RegisterOp::SetBits { address: CONTROL, bits: 0b11 },
            RegisterOp::WaitBits { address: CONTROL, bits: 1 << 8 },
        ]
    );
}

#[test]
fn adc_oneshot_trigger() {
    let mut engine = ADCEngine;
    let mut node = engine.oneshot(Channel::External(ExternalChannel::Ch2), Precision::Compressed);
    assert!(!node.triggered());
    let ops = node.object().trigger();
    assert_eq!(
        ops,
        vec![
            RegisterOp::SetBits { address: CONTROL, bits: 1 << 10 },
            RegisterOp::ClearBits { address: CONTROL, bits: 0xF << 12 },
            RegisterOp::SetBits { address: CONTROL, bits: 2 << 12 },
            RegisterOp::Write { address: FCS, value: (1 << 24) | 1 },
            RegisterOp::SetBits { address: FCS, bits: 1 << 1 },
            RegisterOp::Write { address: 0xE000E104, value: 1 << 3 },
            RegisterOp::Barrier,
            RegisterOp::SetBits { address: CONTROL, bits: 0b101 },
            RegisterOp::Write { address: INTE, value: 1 },
        ]
    );
}

#[test]
fn adc_continuous_trigger() {
    let mut engine = ADCEngine;
    let mut node = engine.continuous(ChannelList::ch0().union(ChannelList::ch1()), Precision::Full);
    let ops = node.object().trigger();
    assert_eq!(ops.len(), 7);
    assert_eq!(ops[1], RegisterOp::ClearBits { address: CONTROL, bits: 0xF << 12 });
    assert_eq!(ops[2], RegisterOp::Write { address: FCS, value: (1 << 24) | 1 });
}

#[test]
fn adc_collect_results() {
    let mut op = ADCOperation { operation: Operation::Oneshot(Channel::Temperature), precision: Precision::Full };
    assert_eq!(op.collect(0xF123, 0), Ok(0x123));
    assert_eq!(op.collect(0x0456, 1 << 15), Err((Error::Conversion, 0x456)));
}

#[test]
fn adc_handler_finishes_descriptor() {
    let mut engine = ADCEngine;
    let mut node = engine.oneshot(Channel::Temperature, Precision::Full);
    let (ops, wake) = handler(&mut node);
    assert!(!wake);
    assert_eq!(ops[0], RegisterOp::Write { address: INTE, value: 0 });
    assert_eq!(ops, handler_idle());
    assert_eq!(ops.len(), 6);
}

#[test]
fn analog_pin_channels() {
    let (channel, ops) = ExternalChannel::from_pin(GPIOTyped::<45>::instance());
    assert_eq!(channel, ExternalChannel::Ch5);
    assert_eq!(
        ops,
        vec![
            RegisterOp::Write { address: 0x40028000 + 8 * 45 + 4, value: 0x1F },
            RegisterOp::Write { address: 0x40038000 + 4 * 45 + 4, value: 1 << 7 },
        ]
    );
    let (channel, _) = ExternalChannel::from_pin(GPIOTyped::<40>::instance());
    assert_eq!(channel, ExternalChannel::Ch0);
}
