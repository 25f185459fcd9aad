use rphal::cortex::mpu::{
    AccessPermissions, DeviceMemory, Error, MemoryAttribute, MemoryProtection, NormalMemory,
    NormalMemoryAttributes, Region, RegionConfiguration, Shareability, ValidMemoryProtection,
};
use rphal::register::RegisterOp;

fn config() -> RegionConfiguration {
    RegionConfiguration::new(Shareability::NonShareable, AccessPermissions::RWAll, true)
}

fn typereg(regions: u32) -> u32 {
    regions << 8
}

#[test]
fn region_configuration_bits() {
    let c = RegionConfiguration::new(Shareability::InnerShareable, AccessPermissions::ROAll, true);
    let r = Region::new(0x2000_0000..0x2000_0100, c, 0);
    // base address | share << 3 | access << 1 | xn
    assert_eq!(r.attr(), 0);
    let r2 = Region::new(0x2000_0000..0x2000_0100, config(), 5);
    assert_eq!(r2.attr(), 5);
}

#[test]
fn region_attribute_index_wraps_at_eight() {
    let r = Region::new(0x1000_0000..0x1000_0020, config(), 9);
    assert_eq!(r.attr(), 1);
}

#[test]
fn regions_overlap_when_ranges_touch() {
    let a = Region::new(0x2000_0000..0x2000_1000, config(), 0);
    let b = Region::new(0x2000_0FE0..0x2000_2000, config(), 0);
    let c = Region::new(0x2000_1000..0x2000_2000, config(), 0);
    assert!(a.overlaps(&b));
    assert!(b.overlaps(&a));
    assert!(!a.overlaps(&c));
    assert!(!c.overlaps(&a));
}

#[test]
fn normal_memory_attribute_bytes() {
    assert_eq!(NormalMemoryAttributes::uncachable(), NormalMemoryAttributes::default());
    let wb = NormalMemoryAttributes::writeback(false, true, true);
    let wt = NormalMemoryAttributes::writethrough(true, true, false);
    let mem = NormalMemory::new(wb, wt);
    // write back, non transient, read and write allocate: 0b1111; write through,
    // transient, read allocate: 0b0010.
    assert_eq!(mem.generic().raw(), 0b1111_0010);
    assert_eq!(NormalMemory::default().generic().raw(), 0b0100_0100);
}

#[test]
fn device_memory_attribute_bytes() {
    assert_eq!(DeviceMemory::nGnRnE.generic().raw(), 0b0000);
    assert_eq!(DeviceMemory::nGnRE.generic().raw(), 0b0100);
    assert_eq!(DeviceMemory::nGRE.generic().raw(), 0b1000);
    assert_eq!(DeviceMemory::GRE.generic().raw(), 0b1100);
    assert_eq!(DeviceMemory::default(), DeviceMemory::nGnRnE);
    assert_eq!(Shareability::default(), Shareability::OuterShareable);
    assert_eq!(AccessPermissions::default(), AccessPermissions::RWAll);
}

#[test]
fn configure_too_many_regions() {
    let r = [Region::new(0..32, config(), 0), Region::new(64..96, config(), 0)];
    let attrs = [DeviceMemory::nGnRnE.generic()];
    let res = MemoryProtection::instance().configure(typereg(1), &attrs, &r);
    assert!(matches!(res, Err(Error::TooManyRegions)));
}

#[test]
fn configure_too_many_attributes() {
    let r = [Region::new(0..32, config(), 0)];
    let attrs = [DeviceMemory::nGnRnE.generic(); 9];
    let res = MemoryProtection::instance().configure(typereg(8), &attrs, &r);
    assert!(matches!(res, Err(Error::TooManyAttributes)));
}

#[test]
fn configure_invalid_attribute_reports_first_region() {
    let r = [
        Region::new(0..32, config(), 0),
        Region::new(64..96, config(), 3),
        Region::new(128..160, config(), 4),
    ];
    let attrs = [DeviceMemory::nGnRnE.generic(), DeviceMemory::GRE.generic()];
    let res = MemoryProtection::instance().configure(typereg(8), &attrs, &r);
    assert!(matches!(res, Err(Error::InvalidAttribute(1, 3))));
}

#[test]
fn configure_overlap_reports_first_pair() {
    let r = [
        Region::new(0..64, config(), 0),
        Region::new(256..512, config(), 0),
        Region::new(384..448, config(), 0),
        Region::new(32..96, config(), 0),
    ];
    let attrs = [DeviceMemory::nGnRnE.generic()];
    let res = MemoryProtection::instance().configure(typereg(8), &attrs, &r);
    assert!(matches!(res, Err(Error::RegionOverlap(0, 3))));
}

#[test]
fn configure_loads_attributes_and_regions() {
    let r = [Region::new(0x2000_0000..0x2000_1000, config(), 1)];
    let attrs: Vec<MemoryAttribute> = vec![
        DeviceMemory::nGnRE.generic(),
        NormalMemory::default().generic(),
        DeviceMemory::GRE.generic(),
        DeviceMemory::nGRE.generic(),
        NormalMemory::default().generic(),
    ];
    let res = MemoryProtection::instance().configure(typereg(2), &attrs, &r);
    let (_valid, ops): (ValidMemoryProtection, Vec<RegisterOp>) = match res {
        Ok(v) => v,
        Err(_) => panic!("configuration refused"),
    };
    assert_eq!(
        ops,
        vec![
            RegisterOp::Write { address: MemoryProtection::MAIR0, value: 0 },
            RegisterOp::Write { address: MemoryProtection::MAIR1, value: 0 },
            RegisterOp::Write { address: MemoryProtection::MAIR0, value: 0x080C_4404 },
            RegisterOp::Write { address: MemoryProtection::MAIR1, value: 0x44 },
            RegisterOp::Write { address: MemoryProtection::RNR, value: 0 },
            RegisterOp::Write { address: MemoryProtection::RBAR, value: 0 },
            RegisterOp::Write { address: MemoryProtection::RLAR, value: 0 },
            RegisterOp::Write { address: MemoryProtection::RNR, value: 1 },
            RegisterOp::Write { address: MemoryProtection::RBAR, value: 0 },
            RegisterOp::Write { address: MemoryProtection::RLAR, value: 0 },
            RegisterOp::Write { address: MemoryProtection::RNR, value: 0 },
            RegisterOp::Write { address: MemoryProtection::RBAR, value: 0x2000_0000 | 0b011 },
            RegisterOp::Write { address: MemoryProtection::RLAR, value: 0x2000_0FE0 | (1 << 1) | 1 },
        ]
    );
}

#[test]
fn configure_without_regions_clears_them_all() {
    let r: [Region; 0] = [];
    let attrs = [DeviceMemory::nGnRE.generic()];
    let res = MemoryProtection::instance().configure(typereg(1), &attrs, &r);
    let (_valid, ops): (ValidMemoryProtection, Vec<RegisterOp>) = match res {
        Ok(v) => v,
        Err(_) => panic!("configuration refused"),
    };
    assert_eq!(
        ops,
        vec![
            RegisterOp::Write { address: MemoryProtection::MAIR0, value: 0 },
            RegisterOp::Write { address: MemoryProtection::MAIR1, value: 0 },
            RegisterOp::Write { address: MemoryProtection::MAIR0, value: 0x04 },
            RegisterOp::Write { address: MemoryProtection::RNR, value: 0 },
            RegisterOp::Write { address: MemoryProtection::RBAR, value: 0 },
            RegisterOp::Write { address: MemoryProtection::RLAR, value: 0 },
        ]
    );
}

#[test]
fn valid_protection_enable_disable() {
    let mut valid = ValidMemoryProtection::new(1, 1);
    assert_eq!(valid.enable(), RegisterOp::Write { address: ValidMemoryProtection::CTRL, value: 1 });
    assert_eq!(valid.disable(), RegisterOp::Write { address: ValidMemoryProtection::CTRL, value: 0 });
}
