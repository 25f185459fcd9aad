use rphal::cortex::{Configuration, CoprocessorControl, SystemControl};
use rphal::register::RegisterOp;

#[test]
fn configuration_bits() {
    let mut system = SystemControl::instance();
    assert_eq!(
        system.configuration.divbyzero(0, true),
        RegisterOp::Write { address: Configuration::CCR, value: 1 << 4 }
    );
    assert_eq!(
        system.configuration.unaligned(0xFFFF_FFFF, false),
        RegisterOp::Write { address: Configuration::CCR, value: 0xFFFF_FFF7 }
    );
    assert_eq!(
        system.configuration.userpend(0x10, true),
        RegisterOp::Write { address: Configuration::CCR, value: 0x12 }
    );
    assert_eq!(
        system.configuration.deepsleep(0x4, false),
        RegisterOp::Write { address: Configuration::SCR, value: 0 }
    );
    assert_eq!(
        system.configuration.vtrelocate(0x2000_0000),
        RegisterOp::Write { address: Configuration::VTOR, value: 0x2000_0000 }
    );
}

#[test]
fn set_bit_keeps_other_bits() {
    assert_eq!(Configuration::set(0b1010, 0, true), 0b1011);
    assert_eq!(Configuration::set(0b1010, 3, false), 0b0010);
    assert_eq!(Configuration::set(0b1010, 1, true), 0b1010);
}

#[test]
fn coprocessor_enable_with_thread_and_nonsecure_access() {
    let mut cp = CoprocessorControl::instance();
    let ops = cp.configure(0xFFFF_FFFF, 0, 10, true, true, true);
    assert_eq!(
        ops,
        vec![
            RegisterOp::Write { address: CoprocessorControl::CPACR, value: 0xFFFF_FFFF },
            RegisterOp::Write { address: CoprocessorControl::NSACR, value: 1 << 10 },
            RegisterOp::Barrier,
        ]
    );
}

#[test]
fn coprocessor_privileged_only_access() {
    let mut cp = CoprocessorControl::instance();
    let ops = cp.configure(0, 0xFFFF_FFFF, 4, true, false, false);
    assert_eq!(ops[0], RegisterOp::Write { address: CoprocessorControl::CPACR, value: 1 << 8 });
    assert_eq!(ops[1], RegisterOp::Write { address: CoprocessorControl::NSACR, value: 0xFFFF_FFEF });
}

#[test]
fn coprocessor_disable_clears_fields_without_barrier() {
    let mut cp = CoprocessorControl::instance();
    let ops = cp.configure(0xFFFF_FFFF, 0xFFFF_FFFF, 0, false, true, true);
    assert_eq!(
        ops,
        vec![
            RegisterOp::Write { address: CoprocessorControl::CPACR, value: 0xFFFF_FFFC },
            RegisterOp::Write { address: CoprocessorControl::NSACR, value: 0xFFFF_FFFE },
        ]
    );
}
