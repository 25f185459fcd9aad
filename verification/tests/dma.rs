use rphal::register::RegisterOp;
use rphal::dma::TransferCount;

#[test]
fn transfer_count_modes() {
    assert_eq!(TransferCount::oneshot(100).0, 100);
    assert_eq!(TransferCount::oneshot(0xFFFF_FFFF).0, 0x0FFF_FFFF);
    assert_eq!(TransferCount::repeat(5).0, 0x1000_0005);
    assert_eq!(TransferCount::repeat(0xF000_0001).0, 0x1000_0001);
    assert_eq!(TransferCount::endless().0, 0xF000_0001);
}

#[test]
fn dma_handler_acknowledges_status() {
    assert_eq!(rphal::dma::handler(0, 0, 0x81), RegisterOp::Write { address: 0x5000040C, value: 0x81 });
    assert_eq!(rphal::dma::handler(1, 1, 3), RegisterOp::Write { address: 0x5000044C, value: 3 });
}
