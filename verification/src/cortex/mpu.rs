//! Memory Protection Unit of the ARMv8-M cores.

use vstd::prelude::*;

use crate::register::RegisterOp;

verus! {

/// Mask of the address bits of the region base and limit registers.
pub const ADDRESS_MASK: u32 = 0xFFFF_FFE0;

/// Controls a valid and possibly active Memory Protection Unit.
/// Enables adding additional regions or attributes but no reconfiguration.
pub struct ValidMemoryProtection {
    attributes: usize,
    regions: usize,
}

impl View for ValidMemoryProtection {
    /// The number of configured attributes and of configured regions.
    type V = (usize, usize);

    closed spec fn view(&self) -> (usize, usize) {
        (self.attributes, self.regions)
    }
}

impl ValidMemoryProtection {
    /// The MPU Control Register.
    pub const CTRL: usize = 0xE000ED94;

    /// Records a configuration of `attributes` attributes and `regions` regions.
    pub fn new(attributes: usize, regions: usize) -> (r: Self)
        ensures
            r@ == (attributes, regions),
    {
        Self { attributes, regions }
    }

    /// Enables the Memory Protection Unit.
    /// May cause memory faults with an incorrect configuration.
    pub fn enable(&mut self) -> (op: RegisterOp)
        ensures
            op == (RegisterOp::Write { address: Self::CTRL, value: 1 }),
            final(self)@ == old(self)@,
    {
        RegisterOp::Write { address: Self::CTRL, value: 1 }
    }

    /// Disables the Memory Protection Unit.
    pub fn disable(&mut self) -> (op: RegisterOp)
        ensures
            op == (RegisterOp::Write { address: Self::CTRL, value: 0 }),
            final(self)@ == old(self)@,
    {
        RegisterOp::Write { address: Self::CTRL, value: 0 }
    }
}

/// A memory region: its base address register (base address, shareability, access
/// permissions and execute never bit) and its limit address register (limit address,
/// attribute index and enable bit).
#[derive(Clone, Copy, Debug, PartialEq, Eq, Structural)]
pub struct Region {
    rbar: u32,
    rlar: u32,
}

impl View for Region {
    /// The region base address register and the region limit address register.
    type V = (u32, u32);

    closed spec fn view(&self) -> (u32, u32) {
        (self.rbar, self.rlar)
    }
}

/// The attribute index held by a region limit address register.
pub open spec fn attr_spec(rlar: u32) -> u32 {
    (rlar >> 1) & 0b111
}

/// The register value of a region limit address register.
pub open spec fn rlar_spec(end: u32, attr: u32) -> u32 {
    (((end - 1) as u32) & ADDRESS_MASK) | ((attr & 0b111) << 1) | 1
}

/// The two regions, given by their registers, share an address: the closed ranges from
/// base address to limit address intersect.
pub open spec fn overlaps_spec(lhs: (u32, u32), rhs: (u32, u32)) -> bool {
    &&& lhs.0 & ADDRESS_MASK <= rhs.1 & ADDRESS_MASK
    &&& rhs.0 & ADDRESS_MASK <= lhs.1 & ADDRESS_MASK
}

impl Region {
    /// Creates a new `Region` for the given address range (both ends 32 byte aligned)
    /// with the given configuration and the indirectly targeted memory attribute.
    /// The validity of the attribute index is checked when the MPU is configured.
    pub fn new(address: core::ops::Range<u32>, config: RegionConfiguration, attr: u32) -> (r: Self)
        requires
            address.start & 0x1F == 0,
            address.end & 0x1F == 0,
            address.end > 0,
        ensures
            r@ == (address.start | config@, rlar_spec(address.end, attr)),
            r@.0 & ADDRESS_MASK == address.start,
            r@.1 & ADDRESS_MASK == address.end - 32,
            r@.1 & 1 == 1,
            attr_spec(r@.1) == attr % 8,
    {
        proof {
            use_type_invariant(&config);
            lemma_region_fields(address.start, address.end, config, attr);
        }
        // Create the RBAR and RLAR.
        let rbar = address.start | config.0;
        let rlar = ((address.end - 1) & ADDRESS_MASK) | ((attr & 0b111) << 1) | 1;
        Self { rbar, rlar }
    }

    /// Returns the attribute index of this region.
    pub fn attr(&self) -> (r: usize)
        ensures
            r == attr_spec(self@.1),
    {
        ((self.rlar >> 1) & 0b111) as usize
    }

    /// Returns `true` if the given region overlaps with this region.
    /// Region overlap is disallowed in ARMv8-M.
    pub fn overlaps(&self, rhs: &Self) -> (r: bool)
        ensures
            r == overlaps_spec(self@, rhs@),
    {
        let lhs_start = self.rbar & ADDRESS_MASK;
        let lhs_end = self.rlar & ADDRESS_MASK;
        let rhs_start = rhs.rbar & ADDRESS_MASK;
        let rhs_end = rhs.rlar & ADDRESS_MASK;
        (lhs_start <= rhs_end) && (rhs_start <= lhs_end)
    }
}

/// Region overlap is symmetric.
pub proof fn lemma_overlaps_symmetric(a: Region, b: Region)
    ensures
        overlaps_spec(a@, b@) == overlaps_spec(b@, a@),
{
}

/// A region made by `Region::new` starts at the start of its range, ends at the last 32
/// byte block of its range, is enabled, and refers to the attribute index `attr % 8`.
pub proof fn lemma_region_fields(start: u32, end: u32, config: RegionConfiguration, attr: u32)
    requires
        start & 0x1F == 0,
        end & 0x1F == 0,
        end > 0,
        config@ < 32,
    ensures
        (start | config@) & ADDRESS_MASK == start,
        rlar_spec(end, attr) & ADDRESS_MASK == end - 32,
        rlar_spec(end, attr) & 1 == 1,
        attr_spec(rlar_spec(end, attr)) == attr % 8,
{
    let c = config@;
    assert((start | c) & 0xFFFF_FFE0u32 == start) by (bit_vector)
        requires
            start & 0x1F == 0,
            c < 32,
    ;
    assert(((((end - 1) as u32) & 0xFFFF_FFE0u32) | ((attr & 7) << 1) | 1) & 0xFFFF_FFE0u32
        == end - 32) by (bit_vector)
        requires
            end & 0x1F == 0,
            end > 0,
    ;
    assert(((((end - 1) as u32) & 0xFFFF_FFE0u32) | ((attr & 7) << 1) | 1) & 1 == 1)
        by (bit_vector);
    assert((((((end - 1) as u32) & 0xFFFF_FFE0u32) | ((attr & 7) << 1) | 1) >> 1) & 7 == attr
        % 8) by (bit_vector);
}

/// The base address register of a region starting at `start` (32 byte aligned) with
/// the configuration made of `share`, `access` and `xn` keeps the start address in its upper
/// bits and holds the ARMv8-M fields in its five low bits: SH (bits 4:3) is 0b00 for
/// non-shareable, 0b10 for outer shareable and 0b11 for inner shareable memory; AP (bits 2:1)
/// has bit 2 set for read-only and bit 1 set for access by unprivileged code; XN (bit 0) is
/// set for never executable memory.
pub proof fn lemma_region_base_fields(start: u32, share: Shareability, access: AccessPermissions, xn: bool)
    requires
        start & 0x1F == 0,
    ensures
        ({
            let rbar = start | ((share.value_spec() << 3) | (access.value_spec() << 1) | (if xn { 1u32 } else { 0u32 }));
            &&& rbar & ADDRESS_MASK == start
            &&& ((rbar >> 3) & 3 == 0b00) == (share == Shareability::NonShareable)
            &&& ((rbar >> 3) & 3 == 0b10) == (share == Shareability::OuterShareable)
            &&& ((rbar >> 3) & 3 == 0b11) == (share == Shareability::InnerShareable)
            &&& (((rbar >> 2) & 1 == 1) == (access == AccessPermissions::ROPrivileged
                || access == AccessPermissions::ROAll))
            &&& (((rbar >> 1) & 1 == 1) == (access == AccessPermissions::RWAll
                || access == AccessPermissions::ROAll))
            &&& ((rbar & 1 == 1) == xn)
        }),
{
    let sv = share.value_spec();
    let av = access.value_spec();
    let x: u32 = if xn { 1 } else { 0 };
    assert(forall|st: u32, sh: u32, ap: u32, xb: u32|
        st & 0x1F == 0 && sh < 4 && ap < 4 && xb < 2 ==> {
            let rbar = #[trigger] (st | ((sh << 3) | (ap << 1) | xb));
            &&& rbar & 0xFFFF_FFE0u32 == st
            &&& (rbar >> 3) & 3 == sh
            &&& ((rbar >> 2) & 1 == 1) == (ap >= 2)
            &&& ((rbar >> 1) & 1 == 1) == (ap == 1 || ap == 3)
            &&& (rbar & 1 == 1) == (xb == 1)
        }) by (bit_vector);
    assert(start | ((sv << 3) | (av << 1) | x) == start | ((sv << 3) | (av << 1) | x));
}

/// Shareability, access permissions and execute never bit of a region.
pub struct RegionConfiguration(u32);

impl View for RegionConfiguration {
    type V = u32;

    closed spec fn view(&self) -> u32 {
        self.0
    }
}

impl RegionConfiguration {
    /// Creates a new `RegionConfiguration` from the `Shareability`, the `AccessPermissions`
    /// and a flag indicating if this region is not executable (eXecute Never).
    pub fn new(share: Shareability, access: AccessPermissions, xn: bool) -> (r: Self)
        ensures
            r@ == (share.value_spec() << 3) | (access.value_spec() << 1) | (if xn { 1u32 } else { 0u32 }),
            r@ < 32,
    {
        let s = share.value();
        let a = access.value();
        let x: u32 = if xn { 1 } else { 0 };
        let v = (s << 3) | (a << 1) | x;
        assert(v < 32) by (bit_vector)
            requires
                s < 4,
                a < 4,
                x < 2,
                v == (s << 3) | (a << 1) | x,
        ;
        Self(v)
    }

    /// Every configuration fits the five low bits of the base address register.
    #[verifier::type_invariant]
    spec fn fits(self) -> bool {
        self.0 < 32
    }
}

/// Indicates if the memory region is shared between different bus masters.
#[derive(Clone, Copy, Debug, PartialEq, Eq, Structural)]
pub enum Shareability {
    /// Private memory.
    NonShareable,
    /// Shareable with all bus masters.
    OuterShareable,
    /// Shareable with internal bus masters.
    InnerShareable,
}

impl Shareability {
    /// The field value of this shareability.
    pub open spec fn value_spec(self) -> u32 {
        match self {
            Shareability::NonShareable => 0b00,
            Shareability::OuterShareable => 0b10,
            Shareability::InnerShareable => 0b11,
        }
    }

    /// Returns the field value of this shareability.
    pub fn value(&self) -> (r: u32)
        ensures
            r == self.value_spec(),
    {
        match self {
            Shareability::NonShareable => 0b00,
            Shareability::OuterShareable => 0b10,
            Shareability::InnerShareable => 0b11,
        }
    }
}

impl Default for Shareability {
    fn default() -> (r: Self)
        ensures
            r == Shareability::OuterShareable,
    {
        Shareability::OuterShareable
    }
}

/// Indicates access permissions of the region.
#[derive(Clone, Copy, Debug, PartialEq, Eq, Structural)]
pub enum AccessPermissions {
    /// Read-Write region accessible only by privileged code.
    RWPrivileged,
    /// Read-Write region accessible by all modes.
    RWAll,
    /// Read-Only region accessible only by privileged code.
    ROPrivileged,
    /// Read-Only region accessible by all modes.
    ROAll,
}

impl AccessPermissions {
    /// The field value of these permissions.
    pub open spec fn value_spec(self) -> u32 {
        match self {
            AccessPermissions::RWPrivileged => 0b00,
            AccessPermissions::RWAll => 0b01,
            AccessPermissions::ROPrivileged => 0b10,
            AccessPermissions::ROAll => 0b11,
        }
    }

    /// Returns the field value of these permissions.
    pub fn value(&self) -> (r: u32)
        ensures
            r == self.value_spec(),
    {
        match self {
            AccessPermissions::RWPrivileged => 0b00,
            AccessPermissions::RWAll => 0b01,
            AccessPermissions::ROPrivileged => 0b10,
            AccessPermissions::ROAll => 0b11,
        }
    }
}

impl Default for AccessPermissions {
    fn default() -> (r: Self)
        ensures
            r == AccessPermissions::RWAll,
    {
        AccessPermissions::RWAll
    }
}

/// The memory attributes of a region: one attribute byte, read either as a Device Memory
/// type or as the outer and inner attributes of Normal Memory.
#[derive(Clone, Copy, Debug, PartialEq, Eq, Structural)]
pub struct MemoryAttribute {
    raw: u8,
}

impl View for MemoryAttribute {
    type V = u8;

    closed spec fn view(&self) -> u8 {
        self.raw
    }
}

impl MemoryAttribute {
    /// Returns the raw `u8` value of this `MemoryAttribute`.
    pub fn raw(&self) -> (r: u8)
        ensures
            r == self@,
    {
        self.raw
    }
}

/// Types of Device Memory allowed by the ARMv8-M MPU.
#[derive(Clone, Copy, Debug, PartialEq, Eq, Structural)]
#[allow(non_camel_case_types)]
pub enum DeviceMemory {
    /// No Gather, no Reorder, no Early ACK.
    /// Most restrictive Device Memory type. Default and recommended for peripheral memory.
    nGnRnE,
    /// No Gather, no Reorder, Early ACK allowed.
    nGnRE,
    /// No Gather, Reorder allowed, Early ACK allowed.
    nGRE,
    /// Gather allowed, Reorder allowed, Early ACK allowed.
    /// Least restrictive Device Memory type.
    GRE,
}

impl DeviceMemory {
    /// The attribute byte of this Device Memory type.
    pub open spec fn value_spec(self) -> u8 {
        match self {
            DeviceMemory::nGnRnE => 0b0000,
            DeviceMemory::nGnRE => 0b0100,
            DeviceMemory::nGRE => 0b1000,
            DeviceMemory::GRE => 0b1100,
        }
    }

    /// Turns this Device Memory type into a memory attribute.
    pub fn generic(self) -> (r: MemoryAttribute)
        ensures
            r@ == self.value_spec(),
    {
        let raw: u8 = match self {
            DeviceMemory::nGnRnE => 0b0000,
            DeviceMemory::nGnRE => 0b0100,
            DeviceMemory::nGRE => 0b1000,
            DeviceMemory::GRE => 0b1100,
        };
        MemoryAttribute { raw }
    }
}

/// Device Memory `d` allows early write acknowledgement.
pub open spec fn early_ack(d: DeviceMemory) -> bool {
    d != DeviceMemory::nGnRnE
}

/// Device Memory `d` allows accesses to be reordered.
pub open spec fn reorder(d: DeviceMemory) -> bool {
    d == DeviceMemory::nGRE || d == DeviceMemory::GRE
}

/// Device Memory `d` allows accesses to be gathered.
pub open spec fn gather(d: DeviceMemory) -> bool {
    d == DeviceMemory::GRE
}

/// The attribute byte of a Device Memory type is a Device Memory byte of the ARMv8-M MAIR
/// (high nibble and two low bits clear), whose bits 3:2 count the relaxations the type
/// allows (early acknowledgement, then reordering, then gathering); each relaxation needs the
/// previous ones.
pub proof fn lemma_device_memory_encoding(d: DeviceMemory)
    ensures
        d.value_spec() % 4 == 0,
        d.value_spec() < 16,
        d.value_spec() / 4 == (if early_ack(d) { 1int } else { 0 }) + (if reorder(d) { 1int } else { 0 })
            + (if gather(d) { 1int } else { 0 }),
        reorder(d) ==> early_ack(d),
        gather(d) ==> reorder(d),
{
}

impl Default for DeviceMemory {
    fn default() -> (r: Self)
        ensures
            r == DeviceMemory::nGnRnE,
    {
        DeviceMemory::nGnRnE
    }
}

/// Defines the Read and Write attributes for a Normal Memory region: the outer attributes
/// in the high nibble, the inner attributes in the low nibble.
#[derive(Clone, Copy, Debug, PartialEq, Eq, Structural)]
pub struct NormalMemory(u8);

impl View for NormalMemory {
    type V = u8;

    closed spec fn view(&self) -> u8 {
        self.0
    }
}

impl NormalMemory {
    /// Creates a new Normal Memory region attributes with inner and outer definitions.
    pub fn new(outer: NormalMemoryAttributes, inner: NormalMemoryAttributes) -> (r: Self)
        ensures
            r@ == outer@ * 16 + inner@,
    {
        proof {
            use_type_invariant(&outer);
            use_type_invariant(&inner);
        }
        let o = outer.0;
        let i = inner.0;
        let v = (o << 4) | i;
        assert(v == o * 16 + i) by (bit_vector)
            requires
                o < 16,
                i < 16,
                v == (o << 4) | i,
        ;
        Self(v)
    }

    /// Turns these Normal Memory attributes into a memory attribute.
    pub fn generic(self) -> (r: MemoryAttribute)
        ensures
            r@ == self@,
    {
        MemoryAttribute { raw: self.0 }
    }
}

impl Default for NormalMemory {
    fn default() -> (r: Self)
        ensures
            r@ == 0b01000100,
    {
        Self(0b01000100)
    }
}

/// Defines the Read or Write attributes for a Normal Memory region.
#[derive(Clone, Copy, Debug, PartialEq, Eq, Structural)]
pub struct NormalMemoryAttributes(u8);

impl View for NormalMemoryAttributes {
    type V = u8;

    closed spec fn view(&self) -> u8 {
        self.0
    }
}

/// The cache allocation bits: read allocation in bit 1, write allocation in bit 0, and bit
/// 3 set for non transient memory.
pub open spec fn allocation_spec(transient: bool, read: bool, write: bool) -> u8 {
    ((if transient { 0u8 } else { 8u8 }) + (if read { 2u8 } else { 0u8 }) + (if write { 1u8 } else { 0u8 })) as u8
}

/// The nibble made by `NormalMemoryAttributes::writeback` (when `writeback`) or
/// `writethrough` holds the ARMv8-M Normal Memory attributes: bit 3 set for non-transient
/// memory, bit 2 set for write-back and clear for write-through, bit 1 for read allocation
/// and bit 0 for write allocation.
pub proof fn lemma_normal_memory_fields(transient: bool, read: bool, write: bool, writeback: bool)
    ensures
        ({
            let v = if writeback {
                allocation_spec(transient, read, write) + 0b0100
            } else {
                allocation_spec(transient, read, write) as int
            };
            &&& 0 <= v < 16
            &&& (v / 8 == 1) == !transient
            &&& ((v / 4) % 2 == 1) == writeback
            &&& ((v / 2) % 2 == 1) == read
            &&& (v % 2 == 1) == write
        }),
{
}

impl NormalMemoryAttributes {
    /// Attributes always fit a nibble.
    #[verifier::type_invariant]
    spec fn fits(self) -> bool {
        self.0 < 16
    }

    /// Creates a Normal Memory definition for uncachable memory.
    pub fn uncachable() -> (r: Self)
        ensures
            r@ == 0b0100,
    {
        Self(0b0100)
    }

    /// Creates a Normal Memory definition for a Write Back cache.
    /// `read` and `write` indicate if the corresponding memory access will cause
    /// allocations in the cache.
    pub fn writeback(transient: bool, read: bool, write: bool) -> (r: Self)
        ensures
            r@ == allocation_spec(transient, read, write) + 0b0100,
    {
        // Marks the memory as write back.
        let writeback: u8 = 0b0100;
        let r: u8 = if read { 1 } else { 0 };
        let w: u8 = if write { 1 } else { 0 };
        let mut value: u8 = (r << 1) | w | writeback;
        assert((1u8 << 3) == 8u8) by (bit_vector);
        if !transient {
            value = value | (1 << 3);
        }
        assert(value == (if transient { 0u8 } else { 8u8 }) + r * 2 + w + 4) by (bit_vector)
            requires
                r < 2,
                w < 2,
                transient ==> value == (r << 1) | w | 4u8,
                !transient ==> value == ((r << 1) | w | 4u8) | 8u8,
        ;
        Self(value)
    }

    /// Creates a Normal Memory definition for a Write Through cache.
    /// `read` and `write` indicate if the corresponding memory access will cause
    /// allocations in the cache.
    pub fn writethrough(transient: bool, read: bool, write: bool) -> (r: Self)
        ensures
            r@ == allocation_spec(transient, read, write),
    {
        let r: u8 = if read { 1 } else { 0 };
        let w: u8 = if write { 1 } else { 0 };
        let mut value: u8 = (r << 1) | w;
        assert((1u8 << 3) == 8u8) by (bit_vector);
        if !transient {
            value = value | (1 << 3);
        }
        assert(value == (if transient { 0u8 } else { 8u8 }) + r * 2 + w) by (bit_vector)
            requires
                r < 2,
                w < 2,
                transient ==> value == (r << 1) | w,
                !transient ==> value == ((r << 1) | w) | 8u8,
        ;
        Self(value)
    }
}

impl Default for NormalMemoryAttributes {
    fn default() -> (r: Self)
        ensures
            r@ == 0b0100,
    {
        Self::uncachable()
    }
}

/// Errors of the configuration of the MPU.
#[derive(Clone, Copy, Debug, PartialEq, Eq, Structural)]
pub enum Error {
    /// Attempted to configure more attributes than allowed by the MPU.
    TooManyAttributes,
    /// Attempted to configure more regions than allowed by the MPU.
    TooManyRegions,
    /// The given memory region points to an invalid or unset attribute.
    /// Holds the index of the region and the invalid attribute index.
    InvalidAttribute(usize, usize),
    /// The two given regions overlap.
    RegionOverlap(usize, usize),
}

/// The number of regions that the MPU type register value `typereg` reports.
pub open spec fn maxregions_spec(typereg: u32) -> int {
    ((typereg >> 8) & 0xFF) as int
}

/// Region `i` is the first whose attribute index does not name one of `n` attributes.
pub open spec fn first_invalid(n: int, regions: Seq<Region>, i: int) -> bool {
    &&& 0 <= i < regions.len()
    &&& attr_spec(regions[i]@.1) >= n
    &&& forall|j: int| 0 <= j < i ==> attr_spec(#[trigger] regions[j]@.1) < n
}

/// Regions `i` and `j` of the list overlap.
pub open spec fn pair_overlaps(regions: Seq<Region>, i: int, j: int) -> bool {
    overlaps_spec(regions[i]@, regions[j]@)
}

/// `(i, j)` is the first overlapping pair of regions, pairs ordered by their first index
/// then by their second.
pub open spec fn first_overlap(regions: Seq<Region>, i: int, j: int) -> bool {
    &&& 0 <= i < j < regions.len()
    &&& pair_overlaps(regions, i, j)
    &&& forall|a: int, b: int|
        0 <= a < b < regions.len() && (a < i || (a == i && b < j)) ==> !#[trigger] pair_overlaps(
            regions,
            a,
            b,
        )
}

/// The attribute byte in position `k` of the list, 0 past its end.
pub open spec fn attr_byte(attrs: Seq<MemoryAttribute>, k: int) -> u8 {
    if 0 <= k < attrs.len() {
        attrs[k]@
    } else {
        0
    }
}

/// Four attribute bytes packed in a register, the first in the low byte.
pub open spec fn pack_spec(b0: u8, b1: u8, b2: u8, b3: u8) -> u32 {
    (b0 as u32) | ((b1 as u32) << 8) | ((b2 as u32) << 16) | ((b3 as u32) << 24)
}

/// The value of the attribute indirection register `r` for the list `attrs`.
pub open spec fn mair_spec(attrs: Seq<MemoryAttribute>, r: int) -> u32 {
    pack_spec(
        attr_byte(attrs, 4 * r),
        attr_byte(attrs, 4 * r + 1),
        attr_byte(attrs, 4 * r + 2),
        attr_byte(attrs, 4 * r + 3),
    )
}

/// Byte `i` of a packed register is the `i`-th packed byte.
pub proof fn lemma_pack_bytes(b0: u8, b1: u8, b2: u8, b3: u8)
    ensures
        pack_spec(b0, b1, b2, b3) & 0xFF == b0,
        (pack_spec(b0, b1, b2, b3) >> 8) & 0xFF == b1,
        (pack_spec(b0, b1, b2, b3) >> 16) & 0xFF == b2,
        (pack_spec(b0, b1, b2, b3) >> 24) & 0xFF == b3,
{
    let x0 = b0 as u32;
    let x1 = b1 as u32;
    let x2 = b2 as u32;
    let x3 = b3 as u32;
    assert({
        let p = x0 | (x1 << 8) | (x2 << 16) | (x3 << 24);
        &&& p & 0xFF == x0
        &&& (p >> 8) & 0xFF == x1
        &&& (p >> 16) & 0xFF == x2
        &&& (p >> 24) & 0xFF == x3
    }) by (bit_vector)
        requires
            x0 < 256,
            x1 < 256,
            x2 < 256,
            x3 < 256,
    ;
}

/// The register writes that load the attribute list: both indirection registers cleared,
/// then one write per group of four attributes.
pub open spec fn attributes_spec(attrs: Seq<MemoryAttribute>) -> Seq<RegisterOp> {
    seq![
        RegisterOp::Write { address: MemoryProtection::MAIR0, value: 0 },
        RegisterOp::Write { address: MemoryProtection::MAIR1, value: 0 },
    ] + (if attrs.len() > 0 {
        seq![RegisterOp::Write { address: MemoryProtection::MAIR0, value: mair_spec(attrs, 0) }]
    } else {
        Seq::<RegisterOp>::empty()
    }) + (if attrs.len() > 4 {
        seq![RegisterOp::Write { address: MemoryProtection::MAIR1, value: mair_spec(attrs, 1) }]
    } else {
        Seq::<RegisterOp>::empty()
    })
}

/// The register writes that clear the first `n` regions of the MPU.
pub open spec fn clear_regions_spec(n: nat) -> Seq<RegisterOp>
    decreases n,
{
    if n == 0 {
        Seq::<RegisterOp>::empty()
    } else {
        clear_regions_spec((n - 1) as nat) + seq![
            RegisterOp::Write { address: MemoryProtection::RNR, value: (n - 1) as u32 },
            RegisterOp::Write { address: MemoryProtection::RBAR, value: 0 },
            RegisterOp::Write { address: MemoryProtection::RLAR, value: 0 },
        ]
    }
}

/// The register writes that load the regions of the list, in order.
pub open spec fn load_regions_spec(regions: Seq<Region>) -> Seq<RegisterOp>
    decreases regions.len(),
{
    if regions.len() == 0 {
        Seq::<RegisterOp>::empty()
    } else {
        let n = regions.len() - 1;
        load_regions_spec(regions.drop_last()) + seq![
            RegisterOp::Write { address: MemoryProtection::RNR, value: n as u32 },
            RegisterOp::Write { address: MemoryProtection::RBAR, value: regions[n]@.0 },
            RegisterOp::Write { address: MemoryProtection::RLAR, value: regions[n]@.1 },
        ]
    }
}

/// Controls the Memory Protection Unit. This abstraction always represents an inactive MPU.
pub struct MemoryProtection;

impl MemoryProtection {
    /// MPU Type Register.
    pub const TYPE: usize = 0xE000ED90;

    /// Region Number Register.
    pub const RNR: usize = 0xE000ED98;

    /// Region Base Address Register.
    pub const RBAR: usize = 0xE000ED9C;

    /// Region Limit Address Register.
    pub const RLAR: usize = 0xE000EDA0;

    /// First Memory Attributes Indirection Register.
    pub const MAIR0: usize = 0xE000EDC0;

    /// Second Memory Attributes Indirection Register.
    pub const MAIR1: usize = 0xE000EDC4;

    /// Takes control over the MPU.
    pub fn instance() -> Self {
        MemoryProtection
    }

    /// Configures the MPU, whose type register reads `typereg`, with the given attributes
    /// and regions. Returns the `ValidMemoryProtection` with the register writes that load
    /// the configuration, or the first error found.
    pub fn configure(
        self,
        typereg: u32,
        attrs: &[MemoryAttribute],
        regions: &[Region],
    ) -> (r: Result<(ValidMemoryProtection, Vec<RegisterOp>), Error>)
        ensures
            regions@.len() > maxregions_spec(typereg) ==> r == Err::<
                (ValidMemoryProtection, Vec<RegisterOp>),
                Error,
            >(Error::TooManyRegions),
            regions@.len() <= maxregions_spec(typereg) && attrs@.len() > 8 ==> r == Err::<
                (ValidMemoryProtection, Vec<RegisterOp>),
                Error,
            >(Error::TooManyAttributes),
            regions@.len() <= maxregions_spec(typereg) && attrs@.len() <= 8 ==> {
                &&& (exists|i: int| 0 <= i < regions@.len() && attr_spec(regions@[i]@.1) >= attrs@.len())
                    ==> (r matches Err(Error::InvalidAttribute(i, a)) && first_invalid(
                    attrs@.len() as int,
                    regions@,
                    i as int,
                ) && a == attr_spec(regions@[i as int]@.1))
                &&& (forall|i: int|
                    0 <= i < regions@.len() ==> attr_spec(#[trigger] regions@[i]@.1) < attrs@.len())
                    ==> {
                    &&& (exists|a: int, b: int|
                        0 <= a < b < regions@.len() && #[trigger] pair_overlaps(regions@, a, b))
                        ==> (r matches Err(Error::RegionOverlap(i, j)) && first_overlap(
                        regions@,
                        i as int,
                        j as int,
                    ))
                    &&& (forall|a: int, b: int|
                        0 <= a < b < regions@.len() ==> !#[trigger] pair_overlaps(regions@, a, b))
                        ==> (r matches Ok((valid, ops)) && valid@ == (attrs@.len() as usize, regions@.len() as usize)
                        && ops@ == attributes_spec(attrs@) + clear_regions_spec(
                        maxregions_spec(typereg) as nat,
                    ) + load_regions_spec(regions@))
                }
            },
    {
        let mut this = self;
        // Validate that there are not too many regions or attributes.
        let maxregions = ((typereg >> 8) & 0xFF) as usize;
        if regions.len() > maxregions {
            return Err(Error::TooManyRegions);
        }
        if attrs.len() > 8 {
            return Err(Error::TooManyAttributes);
        }
        // Validate that all regions point to a valid attribute.
        let mut index: usize = 0;
        while index < regions.len()
            invariant
                regions@.len() <= maxregions_spec(typereg),
                attrs@.len() <= 8,
                0 <= index <= regions@.len(),
                forall|j: int| 0 <= j < index ==> attr_spec(#[trigger] regions@[j]@.1) < attrs@.len(),
            decreases regions@.len() - index,
        {
            let attr = regions[index].attr();
            if attr >= attrs.len() {
                return Err(Error::InvalidAttribute(index, attr));
            }
            index = index + 1;
        }
        // Validate that all regions do not overlap.
        let last = if regions.len() > 0 {
            regions.len() - 1
        } else {
            0
        };
        let mut i: usize = 0;
        while i < last
            invariant
                regions@.len() <= maxregions_spec(typereg),
                attrs@.len() <= 8,
                forall|j: int| 0 <= j < regions@.len() ==> attr_spec(#[trigger] regions@[j]@.1) < attrs@.len(),
                regions@.len() > 0 ==> last == regions@.len() - 1,
                regions@.len() == 0 ==> last == 0,
                0 <= i <= last,
                forall|a: int, b: int|
                    0 <= a < b < regions@.len() && a < i ==> !#[trigger] pair_overlaps(regions@, a, b),
            decreases last - i,
        {
            let mut j: usize = i + 1;
            while j < regions.len()
                invariant
                    regions@.len() <= maxregions_spec(typereg),
                    attrs@.len() <= 8,
                    forall|j: int| 0 <= j < regions@.len() ==> attr_spec(#[trigger] regions@[j]@.1) < attrs@.len(),
                    regions@.len() > 0 ==> last == regions@.len() - 1,
                    0 <= i < last,
                    i + 1 <= j <= regions@.len(),
                    forall|a: int, b: int|
                        0 <= a < b < regions@.len() && a < i ==> !#[trigger] pair_overlaps(regions@, a, b),
                    forall|b: int| i < b < j ==> !#[trigger] pair_overlaps(regions@, i as int, b),
                decreases regions@.len() - j,
            {
                if regions[i].overlaps(&regions[j]) {
                    return Err(Error::RegionOverlap(i, j));
                }
                j = j + 1;
            }
            i = i + 1;
        }
        // Configure the attributes, then the memory regions.
        let mut ops = this.attributes(attrs);
        let mut loads = this.regions(typereg, regions);
        ops.append(&mut loads);
        Ok((ValidMemoryProtection::new(attrs.len(), regions.len()), ops))
    }

    /// Packs the attributes of group `register` (four attributes per group).
    fn mair(attrs: &[MemoryAttribute], register: usize) -> (r: u32)
        requires
            register <= 1,
        ensures
            r == mair_spec(attrs@, register as int),
    {
        let mut bytes: [u8; 4] = [0, 0, 0, 0];
        let mut index: usize = 0;
        while index < 4
            invariant
                register <= 1,
                0 <= index <= 4,
                forall|k: int| 0 <= k < index ==> bytes@[k] == attr_byte(attrs@, 4 * register + k),
                forall|k: int| index <= k < 4 ==> bytes@[k] == 0,
            decreases 4 - index,
        {
            let position = 4 * register + index;
            if position < attrs.len() {
                bytes[index] = attrs[position].raw();
            }
            index = index + 1;
        }
        (bytes[0] as u32) | ((bytes[1] as u32) << 8) | ((bytes[2] as u32) << 16) | ((bytes[3] as u32) << 24)
    }

    /// Configures the `MemoryAttribute`s of the MPU.
    fn attributes(&mut self, attrs: &[MemoryAttribute]) -> (ops: Vec<RegisterOp>)
        requires
            attrs@.len() <= 8,
        ensures
            ops@ == attributes_spec(attrs@),
    {
        // Clear both MAIR.
        let mut ops: Vec<RegisterOp> = Vec::new();
        ops.push(RegisterOp::Write { address: Self::MAIR0, value: 0 });
        ops.push(RegisterOp::Write { address: Self::MAIR1, value: 0 });
        // Build each MAIR with its 4 attributes.
        if attrs.len() > 0 {
            ops.push(RegisterOp::Write { address: Self::MAIR0, value: Self::mair(attrs, 0) });
        }
        if attrs.len() > 4 {
            ops.push(RegisterOp::Write { address: Self::MAIR1, value: Self::mair(attrs, 1) });
        }
        proof {
            assert(ops@ == attributes_spec(attrs@));
        }
        ops
    }

    /// Configures the `Region`s of the MPU, whose type register reads `typereg`: disables
    /// every region, then loads the given ones.
    fn regions(&mut self, typereg: u32, regions: &[Region]) -> (ops: Vec<RegisterOp>)
        requires
            regions@.len() <= maxregions_spec(typereg),
        ensures
            ops@ == clear_regions_spec(maxregions_spec(typereg) as nat) + load_regions_spec(regions@),
    {
        let maxregions = (typereg >> 8) & 0xFF;
        let mut ops: Vec<RegisterOp> = Vec::new();
        let mut region: u32 = 0;
        while region < maxregions
            invariant
                maxregions == maxregions_spec(typereg),
                region <= maxregions,
                ops@ == clear_regions_spec(region as nat),
            decreases maxregions - region,
        {
            ops.push(RegisterOp::Write { address: Self::RNR, value: region });
            ops.push(RegisterOp::Write { address: Self::RBAR, value: 0 });
            ops.push(RegisterOp::Write { address: Self::RLAR, value: 0 });
            region = region + 1;
        }
        let mut index: usize = 0;
        while index < regions.len()
            invariant
                maxregions == maxregions_spec(typereg),
                regions@.len() <= maxregions,
                index <= regions@.len(),
                ops@ == clear_regions_spec(maxregions as nat) + load_regions_spec(regions@.take(index as int)),
            decreases regions@.len() - index,
        {
            proof {
                assert(regions@.take(index + 1).drop_last() == regions@.take(index as int));
            }
            ops.push(RegisterOp::Write { address: Self::RNR, value: index as u32 });
            ops.push(RegisterOp::Write { address: Self::RBAR, value: regions[index].rbar });
            ops.push(RegisterOp::Write { address: Self::RLAR, value: regions[index].rlar });
            index = index + 1;
        }
        proof {
            assert(regions@.take(regions@.len() as int) == regions@);
        }
        ops
    }
}

} // verus!
