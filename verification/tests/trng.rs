use rphal::crypto::trng::operation::Descriptor;
use rphal::crypto::trng::{handler, handler_idle, TRNGPeripheral, TRNGenerator, ICR, IMR};
use rphal::interrupts::queue::ISRObject;
use rphal::interrupts::VectorTable;
use rphal::register::RegisterOp;

#[test]
fn trng_init_installs_handler() {
    let mut table = VectorTable::reserved();
    let (_gen, ops) = TRNGPeripheral::instance().init(&mut table, 0x1000_0401);
    assert_eq!(table.interrupts.trng.raw(), 0x1000_0401);
    assert_eq!(ops.len(), 10);
    assert_eq!(ops[0], RegisterOp::Write { address: IMR, value: 0xF });
    assert_eq!(ops[9], RegisterOp::Write { address: IMR, value: 0 });
}

#[test]
fn trng_reset_keeps_configuration() {
    let ops = TRNGenerator::reset();
    assert_eq!(ops.len(), 15);
    assert_eq!(ops[2], RegisterOp::Save { address: 0x400F0130, slot: 0 });
    assert_eq!(ops[9], RegisterOp::Restore { address: 0x400F0130, slot: 0 });
    assert_eq!(ops[14], RegisterOp::Write { address: 0x400F012C, value: 1 });
}

#[test]
fn trng_fill_and_service() {
    let mut buffer = [0u8; 10];
    let mut gen = TRNGenerator;
    let mut op = gen.fill(&mut buffer);
    assert_eq!(*op.node.object(), Descriptor { current: 0, size: 10 });
    assert_eq!(op.node.object().words_needed(), 3);
    let trigger = op.node.object().trigger();
    assert_eq!(trigger.len(), 17);
    let data = [0x0403_0201u32, 0x0807_0605, 0x0C0B_0A09];
    let (ops, wake) = handler(&mut op.node, 1, &data, &mut buffer);
    assert_eq!(buffer, [1, 2, 3, 4, 5, 6, 7, 8, 9, 10]);
    assert_eq!(op.node.object().current, 10);
    assert!(!wake);
    assert_eq!(ops[0], RegisterOp::Write { address: ICR, value: 1 });
    assert_eq!(ops.len(), 6);
}

#[test]
fn trng_service_in_several_interrupts() {
    let mut buffer = [0u8; 30];
    let mut gen = TRNGenerator;
    let mut op = gen.fill(&mut buffer);
    let data = [0x1111_1111u32; 6];
    let (ops, _) = handler(&mut op.node, 1, &data, &mut buffer);
    assert_eq!(ops.len(), 3);
    assert_eq!(op.node.object().current, 24);
    assert_eq!(op.node.object().words_needed(), 2);
    let data = [0x2222_2222u32; 2];
    let (ops, _) = handler(&mut op.node, 1, &data, &mut buffer);
    assert_eq!(ops.len(), 6);
    assert_eq!(op.node.object().current, 30);
    assert_eq!(&buffer[..24], &[0x11u8; 24][..]);
    assert_eq!(&buffer[24..], &[0x22u8; 6][..]);
}

#[test]
fn trng_health_failure_restarts() {
    let mut buffer = [7u8; 4];
    let mut gen = TRNGenerator;
    let mut op = gen.fill(&mut buffer);
    let (ops, wake) = handler(&mut op.node, 0b0101, &[0xFFFF_FFFF], &mut buffer);
    assert!(!wake);
    assert_eq!(ops.len(), 3 + 15);
    assert_eq!(buffer, [7u8; 4]);
    assert_eq!(op.node.object().current, 0);
}

#[test]
fn trng_without_data_does_nothing() {
    let mut buffer = [7u8; 4];
    let mut gen = TRNGenerator;
    let mut op = gen.fill(&mut buffer);
    let (ops, wake) = handler(&mut op.node, 0, &[0xFFFF_FFFF], &mut buffer);
    assert!(!wake);
    assert_eq!(ops.len(), 3);
    assert_eq!(buffer, [7u8; 4]);
}

#[test]
fn trng_idle_interrupt_masks() {
    let ops = handler_idle(0b1000);
    assert_eq!(ops[0], RegisterOp::Write { address: ICR, value: 0b1000 });
    assert_eq!(ops[3], RegisterOp::Write { address: IMR, value: 0xF });
    assert_eq!(ops.len(), 6);
}
