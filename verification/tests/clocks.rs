use rphal::clocks::pll::{PLLConfig, PLLPowerMode, PLL};
use rphal::clocks::xosc::CrystalOscillator;
use rphal::clocks::{
    BaseClock, ClockList, ClockTrait, ClockTable, ClockTree, Clocks, ReferenceClock, RingOscillator,
    SourceClock, SystemClock,
};
use rphal::register::RegisterOp;

#[test]
fn pll_low_jitter_prefers_high_post_dividers() {
    let config = PLLConfig { mode: PLLPowerMode::LowJitter, target: 150 };
    assert_eq!(config.configuration(12), Some((300, 1, 6, 4)));
}

#[test]
fn pll_low_power_prefers_low_post_dividers() {
    let config = PLLConfig { mode: PLLPowerMode::LowPower, target: 150 };
    assert_eq!(config.configuration(12), Some((25, 1, 2, 1)));
}

#[test]
fn pll_usb_frequency_both_modes() {
    let jitter = PLLConfig { mode: PLLPowerMode::LowJitter, target: 48 };
    let power = PLLConfig { mode: PLLPowerMode::LowPower, target: 48 };
    assert_eq!(jitter.configuration(12), Some((196, 1, 7, 7)));
    assert_eq!(power.configuration(12), Some((16, 1, 4, 1)));
}

#[test]
fn pll_unreachable_target_gives_none() {
    let config = PLLConfig { mode: PLLPowerMode::LowPower, target: 1 };
    assert_eq!(config.configuration(12), None);
}

#[test]
fn pll_inexact_target_keeps_smallest_residue() {
    let config = PLLConfig { mode: PLLPowerMode::LowPower, target: 100 };
    assert_eq!(config.configuration(13), Some((23, 1, 3, 1)));
}

#[test]
fn pll_refdiv_follows_crystal() {
    let config = PLLConfig { mode: PLLPowerMode::LowPower, target: 150 };
    let r = config.configuration(300).unwrap();
    assert_eq!(r.1, 5);
    assert!(r.0 >= 16 && r.0 <= 320);
}

#[test]
fn pll_freeze_programs_system_pll() {
    let mut pll = PLL::<0>;
    let mut table = ClockTable::new();
    let mut ops = Vec::new();
    let config = PLLConfig { mode: PLLPowerMode::LowJitter, target: 150 };
    let out = pll.freeze(12, &config, &mut table, &mut ops);
    assert_eq!(out, Some(150));
    assert_eq!(
        ops,
        vec![
            RegisterOp::Write { address: 0x40050000, value: 1 },
            RegisterOp::Write { address: 0x40050008, value: 300 },
            RegisterOp::Write { address: 0x40050004, value: 0b001100 },
            RegisterOp::Write { address: 0x4005000C, value: (6 << 16) | (4 << 12) },
            RegisterOp::Write { address: 0x40050004, value: 0b000100 },
        ]
    );
    assert_eq!(ClockList::PLLSystem.read(&table), 150);
    assert_eq!(<PLL<0> as ClockTrait>::current(&table), 150);
    assert_eq!(ClockList::PLLUSB.read(&table), 0);
    assert_eq!(ClockList::XOsc.read(&table), 0);
    assert_eq!(ClockList::ROsc.read(&table), 0);
}

#[test]
fn pll_freeze_programs_usb_pll() {
    let mut pll = PLL::<1>;
    let mut table = ClockTable::new();
    let mut ops = Vec::new();
    let config = PLLConfig { mode: PLLPowerMode::LowPower, target: 48 };
    let out = pll.freeze(12, &config, &mut table, &mut ops);
    assert_eq!(out, Some(48));
    assert_eq!(
        ops,
        vec![
            RegisterOp::Write { address: 0x40058000, value: 1 },
            RegisterOp::Write { address: 0x40058008, value: 16 },
            RegisterOp::Write { address: 0x40058004, value: 0b001100 },
            RegisterOp::Write { address: 0x4005800C, value: (4 << 16) | (1 << 12) },
            RegisterOp::Write { address: 0x40058004, value: 0b000100 },
        ]
    );
    assert_eq!(ClockList::PLLUSB.read(&table), 48);
    assert_eq!(<PLL<1> as ClockTrait>::current(&table), 48);
    assert_eq!(ClockList::PLLSystem.read(&table), 0);
}

#[test]
fn pll_hz_inputs_find_no_configuration() {
    // A target of 150 MHz given in Hz lies beyond every output the search can reach.
    let config = PLLConfig { mode: PLLPowerMode::LowPower, target: 150_000_000 };
    assert_eq!(config.configuration(12_000_000), None);
    let mut pll = PLL::<0>;
    let mut table = ClockTable::new();
    let mut ops = Vec::new();
    assert_eq!(pll.freeze(12_000_000, &config, &mut table, &mut ops), None);
    assert!(ops.is_empty());
}

#[test]
fn pll_freeze_without_configuration_does_nothing() {
    let mut pll = PLL::<1>;
    let mut table = ClockTable::new();
    let mut ops = Vec::new();
    let config = PLLConfig { mode: PLLPowerMode::LowPower, target: 1 };
    assert_eq!(pll.freeze(12, &config, &mut table, &mut ops), None);
    assert!(ops.is_empty());
    assert_eq!(ClockList::PLLUSB.read(&table), 0);
}

#[test]
fn clock_list_read_after_write() {
    let mut table = ClockTable::new();
    ClockList::XOsc.write(&mut table, 12_000_000);
    ClockList::PLLUSB.write(&mut table, 48);
    assert_eq!(ClockList::XOsc.read(&table), 12_000_000);
    assert_eq!(ClockList::PLLUSB.read(&table), 48);
    assert_eq!(ClockList::ROsc.read(&table), 0);
    assert_eq!(ClockList::PLLSystem.read(&table), 0);
}

#[test]
fn crystal_frequency() {
    assert_eq!(CrystalOscillator(Some(12_000_000)).freq(), 12_000_000);
    assert_eq!(CrystalOscillator(None).freq(), 0);
}

#[test]
fn crystal_stable_bit() {
    let xosc = CrystalOscillator(Some(12_000_000));
    assert!(xosc.stable(0x8000_0000));
    assert!(!xosc.stable(0x7FFF_FFFF));
}

#[test]
fn crystal_enable_ranges_and_delay() {
    let mut table = ClockTable::new();
    let ops = CrystalOscillator(Some(12_000_000)).enable(false, &mut table);
    assert_eq!(
        ops,
        vec![
            RegisterOp::Write { address: CrystalOscillator::STARTUP, value: 47 },
            RegisterOp::Write { address: CrystalOscillator::CTRL, value: (0xFAB << 12) | 0xAA0 },
        ]
    );
    assert_eq!(ClockList::XOsc.read(&table), 12_000_000);
    let ops = CrystalOscillator(Some(20_000_000)).enable(true, &mut table);
    assert_eq!(ops[1], RegisterOp::Write { address: CrystalOscillator::CTRL, value: (0xFAB << 12) | 0xAA1 });
    assert_eq!(ops[2], RegisterOp::WaitBits { address: CrystalOscillator::STATUS, bits: 0x8000_0000 });
    let ops = CrystalOscillator(Some(50_000_000)).enable(false, &mut table);
    assert_eq!(ops[1], RegisterOp::Write { address: CrystalOscillator::CTRL, value: (0xFAB << 12) | 0xAA2 });
    let ops = CrystalOscillator(Some(60_000_000)).enable(false, &mut table);
    assert_eq!(ops[1], RegisterOp::Write { address: CrystalOscillator::CTRL, value: (0xFAB << 12) | 0xAA3 });
}

#[test]
fn crystal_absent_enable_does_nothing() {
    let mut table = ClockTable::new();
    ClockList::XOsc.write(&mut table, 7);
    let ops = CrystalOscillator(None).enable(true, &mut table);
    assert!(ops.is_empty());
    assert_eq!(ClockList::XOsc.read(&table), 7);
}

#[test]
fn crystal_disable_reports_zero() {
    let mut table = ClockTable::new();
    let xosc = CrystalOscillator(Some(12_000_000));
    xosc.enable(false, &mut table);
    let op = xosc.disable(&mut table);
    assert_eq!(op, RegisterOp::Write { address: CrystalOscillator::CTRL, value: 0xD1E << 12 });
    assert_eq!(ClockList::XOsc.read(&table), 0);
}

#[test]
fn source_and_base_clock_values() {
    assert_eq!(SourceClock::ReferenceClock.value(), 0);
    assert_eq!(SourceClock::PLLSystem.value(), 1);
    assert_eq!(SourceClock::PLLUSB.value(), 0x21);
    assert_eq!(SourceClock::RingOscillator.value(), 0x41);
    assert_eq!(SourceClock::CrystalOscillator.value(), 0x61);
    assert_eq!(BaseClock::RingOscillator.value(), 0);
    assert_eq!(BaseClock::CrystalOscillator.value(), 2);
    assert_eq!(BaseClock::LowPowerOscillator.value(), 3);
}

#[test]
fn clock_controls_restore_and_configure() {
    assert_eq!(SystemClock.restore(), RegisterOp::Write { address: 0x4001003C, value: 0 });
    assert_eq!(
        SystemClock.configure(SourceClock::PLLSystem),
        RegisterOp::Write { address: 0x4001003C, value: 1 }
    );
    assert_eq!(ReferenceClock.restore(), RegisterOp::Write { address: 0x40010030, value: 0 });
    assert_eq!(
        ReferenceClock.configure(BaseClock::CrystalOscillator),
        RegisterOp::Write { address: 0x40010030, value: 2 }
    );
    let ops = RingOscillator.restore();
    assert_eq!(ops.len(), 3);
    assert_eq!(ops[2], RegisterOp::Write { address: 0x400E8000, value: (0xFAB << 12) | 0xFA4 });
}

#[test]
fn clock_tree_apply_with_crystal_and_system_pll() {
    let xosc = CrystalOscillator(Some(12));
    let sys = PLLConfig { mode: PLLPowerMode::LowJitter, target: 150 };
    let tree = ClockTree {
        xosc: &xosc,
        pllsys: Some(&sys),
        pllusb: None,
        reference: BaseClock::CrystalOscillator,
        system: SourceClock::PLLSystem,
    };
    let mut clocks = Clocks::instance();
    let mut table = ClockTable::new();
    let ops = clocks.apply(&tree, &mut table);
    // Ring oscillator (3), reference and system restore (2), crystal start (3),
    // system PLL (5), reference and system selection (2).
    assert_eq!(ops.len(), 15);
    assert_eq!(ops[3], RegisterOp::Write { address: 0x40010030, value: 0 });
    assert_eq!(ops[13], RegisterOp::Write { address: 0x40010030, value: 2 });
    assert_eq!(ops[14], RegisterOp::Write { address: 0x4001003C, value: 1 });
    assert_eq!(ClockList::XOsc.read(&table), 12);
    assert_eq!(ClockList::PLLSystem.read(&table), 150);
    assert_eq!(ClockList::PLLUSB.read(&table), 0);
}

#[test]
fn clock_tree_apply_with_both_plls() {
    let xosc = CrystalOscillator(Some(12));
    let sys = PLLConfig { mode: PLLPowerMode::LowPower, target: 150 };
    let usb = PLLConfig { mode: PLLPowerMode::LowPower, target: 48 };
    let tree = ClockTree {
        xosc: &xosc,
        pllsys: Some(&sys),
        pllusb: Some(&usb),
        reference: BaseClock::CrystalOscillator,
        system: SourceClock::PLLSystem,
    };
    let mut clocks = Clocks::instance();
    let mut table = ClockTable::new();
    let ops = clocks.apply(&tree, &mut table);
    assert_eq!(ops.len(), 20);
    assert_eq!(ops[13], RegisterOp::Write { address: 0x40058000, value: 1 });
    assert_eq!(ops[14], RegisterOp::Write { address: 0x40058008, value: 16 });
    assert_eq!(ClockList::XOsc.read(&table), 12);
    assert_eq!(ClockList::PLLSystem.read(&table), 150);
    assert_eq!(ClockList::PLLUSB.read(&table), 48);
}

#[test]
fn clock_tree_apply_with_zero_crystal_stops_it() {
    let xosc = CrystalOscillator(Some(0));
    let sys = PLLConfig { mode: PLLPowerMode::LowPower, target: 150 };
    let tree = ClockTree {
        xosc: &xosc,
        pllsys: Some(&sys),
        pllusb: None,
        reference: BaseClock::RingOscillator,
        system: SourceClock::ReferenceClock,
    };
    let mut clocks = Clocks::instance();
    let mut table = ClockTable::new();
    let ops = clocks.apply(&tree, &mut table);
    assert_eq!(ops.len(), 8);
    assert_eq!(ops[5], RegisterOp::Write { address: CrystalOscillator::CTRL, value: 0xD1E << 12 });
    assert_eq!(ClockList::PLLSystem.read(&table), 0);
}

#[test]
fn clock_tree_apply_without_crystal() {
    let xosc = CrystalOscillator(None);
    let tree = ClockTree {
        xosc: &xosc,
        pllsys: None,
        pllusb: None,
        reference: BaseClock::RingOscillator,
        system: SourceClock::ReferenceClock,
    };
    let mut clocks = Clocks::instance();
    let mut table = ClockTable::new();
    ClockList::XOsc.write(&mut table, 5);
    let ops = clocks.apply(&tree, &mut table);
    assert_eq!(ops.len(), 8);
    assert_eq!(ops[5], RegisterOp::Write { address: CrystalOscillator::CTRL, value: 0xD1E << 12 });
    assert_eq!(ClockList::XOsc.read(&table), 0);
}

#[test]
fn pll_search_fits() {
    assert!(rphal::clocks::pll::search_fits_exec(150, 12));
    assert!(!rphal::clocks::pll::search_fits_exec(150, 0));
    assert!(rphal::clocks::pll::search_fits_exec(150_000_000, 12_000_000));
}

#[test]
fn reference_clock_is_not_recorded() {
    let mut table = ClockTable::new();
    ClockList::ROsc.write(&mut table, 11);
    ClockList::XOsc.write(&mut table, 12);
    assert_eq!(<ReferenceClock as ClockTrait>::current(&table), 0);
}
