use rphal::adc::ADCEngine;
use rphal::interrupts::exceptions::{init, ExceptionHandlers};
use rphal::interrupts::interrupts::nvic_ops;
use rphal::interrupts::{Interrupt, Vector, VectorTable};
use rphal::register::RegisterOp;

#[test]
fn vectors_hold_their_values() {
    assert_eq!(Vector::reserved().raw(), 0);
    assert_eq!(Vector::target(0x1000_0101).raw(), 0x1000_0101);
    assert_eq!(Vector::value(42).raw(), 42);
}

#[test]
fn vector_table_index_and_update() {
    let mut table = VectorTable::reserved();
    table.index_mut(61, Vector::value(5));
    table.index_mut(0, Vector::value(0x2000_4000));
    assert_eq!(table.index(61).raw(), 5);
    assert_eq!(table.interrupts.powmantimer.raw(), 5);
    assert_eq!(table.index(0).raw(), 0x2000_4000);
    assert_eq!(table.index(30).raw(), 0);
}

#[test]
fn exception_init_installs_handlers() {
    let mut table = VectorTable::reserved();
    let handlers = ExceptionHandlers {
        nmi: 2,
        hardfault: 3,
        memfault: 4,
        busfault: 5,
        usefault: 6,
        secure: 7,
        svcall: 11,
        pendsv: 14,
        systick: 15,
    };
    init(&mut table, handlers);
    for i in [2usize, 3, 4, 5, 6, 7, 11, 14, 15] {
        assert_eq!(table.index(i).raw(), i);
    }
    for i in [0usize, 1, 8, 9, 10, 12, 13, 16] {
        assert_eq!(table.index(i).raw(), 0);
    }
}

#[test]
fn nvic_register_and_bit() {
    assert_eq!(
        nvic_ops(0xE000E100, 35),
        vec![RegisterOp::Write { address: 0xE000E104, value: 1 << 3 }, RegisterOp::Barrier]
    );
    assert_eq!(ADCEngine::enable(), nvic_ops(0xE000E100, 35));
    assert_eq!(ADCEngine::disable()[0], RegisterOp::Write { address: 0xE000E184, value: 1 << 3 });
    assert_eq!(ADCEngine::pend()[0], RegisterOp::Write { address: 0xE000E204, value: 1 << 3 });
    assert_eq!(ADCEngine::clear()[0], RegisterOp::Write { address: 0xE000E284, value: 1 << 3 });
}

#[test]
fn interrupt_install_sets_entry() {
    let mut table = VectorTable::reserved();
    let ops = ADCEngine::install(&mut table, 0x1000_0201);
    assert_eq!(ops, vec![RegisterOp::Barrier]);
    assert_eq!(table.index(51).raw(), 0x1000_0201);
    assert_eq!(table.interrupts.adc.raw(), 0x1000_0201);
}
