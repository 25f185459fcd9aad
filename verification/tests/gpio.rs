use rphal::gpio::input::irq_group;
use rphal::gpio::output::any::{OUTPUT_CONTROL, OUTPUT_PAD, RELEASE_CONTROL, RELEASE_PAD};
use rphal::gpio::output::Output;
use rphal::gpio::qspi::QMIChipSelect;
use rphal::gpio::{GPIOAny, GPIOList, GPIOTyped};
use rphal::register::RegisterOp;

#[test]
fn list_all_holds_every_pin_once() {
    let mut list = GPIOList::all();
    assert!(list.any(0).is_some());
    assert!(list.any(0).is_none());
    assert!(list.any(47).is_some());
    assert!(list.any(48).is_none());
    assert!(list.any(63).is_none());
}

#[test]
fn list_empty_holds_nothing() {
    let mut list = GPIOList::empty();
    for n in 0..64u8 {
        assert!(list.any(n).is_none());
    }
}

#[test]
fn list_add_then_take() {
    let mut list = GPIOList::empty().add(GPIOTyped::<33>::instance());
    list.add_assign(GPIOTyped::<5>::instance());
    assert!(list.typed::<5>().is_some());
    assert!(list.typed::<5>().is_none());
    let pin = list.any(33).unwrap();
    assert_eq!(pin.number(), 33);
    assert!(list.any(33).is_none());
}

#[test]
fn pin_register_addresses() {
    let pin = GPIOAny::new(3);
    assert_eq!(pin.status(), 0x40028018);
    assert_eq!(pin.control(), 0x4002801C);
    assert_eq!(pin.pad(), 0x40038010);
    let typed = GPIOTyped::<3>::instance();
    assert_eq!(typed.control(), pin.control());
    assert_eq!(typed.pad(), pin.pad());
    let any: GPIOAny = typed.into();
    assert_eq!(any.number(), 3);
}

#[test]
fn output_any_round_trip() {
    let (mut out, ops) = GPIOAny::new(40).into_output();
    assert_eq!(
        ops,
        vec![
            RegisterOp::Write { address: 0x40028000 + 8 * 40 + 4, value: OUTPUT_CONTROL },
            RegisterOp::Write { address: 0x40038000 + 4 * 40 + 4, value: OUTPUT_PAD },
        ]
    );
    assert_eq!(out.set_high(), RegisterOp::Write { address: 0xD000001C, value: 1 << 8 });
    assert_eq!(out.set_low(), RegisterOp::Write { address: 0xD0000024, value: 1 << 8 });
    assert_eq!(out.toggle(), RegisterOp::Write { address: 0xD000002C, value: 1 << 8 });
    let (pin, ops) = out.into_any();
    assert_eq!(pin.number(), 40);
    assert_eq!(ops[0], RegisterOp::Write { address: 0x40028000 + 8 * 40 + 4, value: RELEASE_CONTROL });
    assert_eq!(ops[1], RegisterOp::Write { address: 0x40038000 + 4 * 40 + 4, value: RELEASE_PAD });
}

#[test]
fn output_any_try_into_typed_checks_pin() {
    let (out, _) = GPIOAny::new(7).into_output();
    assert!(out.try_into_typed::<8>().is_err());
    let (out, _) = GPIOAny::new(7).into_output();
    let (_, ops) = out.try_into_typed::<7>().unwrap();
    assert_eq!(ops.len(), 2);
}

#[test]
fn output_typed_uses_coprocessor() {
    let (mut out, ops) = GPIOTyped::<35>::instance().into_output();
    assert_eq!(ops[0], RegisterOp::Write { address: 0x40028000 + 8 * 35 + 4, value: 0x05 });
    assert_eq!(out.toggle(), RegisterOp::Coprocessor { function: 5, bank: 1, operand: 35 });
    assert_eq!(out.set_high(), RegisterOp::Coprocessor { function: 6, bank: 1, operand: 35 });
    assert_eq!(out.set_low(), RegisterOp::Coprocessor { function: 7, bank: 1, operand: 35 });
    let (_, ops) = out.into_typed();
    assert_eq!(ops[1], RegisterOp::Write { address: 0x40038000 + 4 * 35 + 4, value: 0x80 });
}

#[test]
fn qspi_chip_select_configuration() {
    let (_, ops) = QMIChipSelect::from_pin(GPIOTyped::<0>::instance());
    assert_eq!(
        ops,
        vec![
            RegisterOp::Write { address: 0x40028004, value: (0x3 << 14) | 0x09 },
            RegisterOp::Write { address: 0x40038004, value: 0x3B },
        ]
    );
}

#[test]
fn irq_group_disables_and_wakes_pending_pins() {
    let (ops, pins) = irq_group(1, 0, 0x0000_2001);
    assert_eq!(pins, vec![8, 11]);
    assert_eq!(
        ops,
        vec![
            RegisterOp::ClearBits { address: 0x40028248 + 4, bits: 0xF },
            RegisterOp::ClearBits { address: 0x40028248 + 4, bits: 0xF << 12 },
        ]
    );
    let (ops, pins) = irq_group(0, 1, 0);
    assert!(ops.is_empty());
    assert!(pins.is_empty());
}

#[test]
fn typed_pin_number_kept_modulo_256() {
    assert_eq!(GPIOAny::from(GPIOTyped::<300>::instance()).number(), 44);
    let (mut out, _) = GPIOAny::new(70).into_output();
    assert!(!out.can_drive());
    let (mut ok, _) = GPIOAny::new(63).into_output();
    assert!(ok.can_drive());
    assert_eq!(ok.set_high(), RegisterOp::Write { address: 0xD000001C, value: 1 << 31 });
    let _ = &mut out;
}
