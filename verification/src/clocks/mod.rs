//! RP clock tree control.

pub mod pll;
pub mod reference;
pub mod rosc;
pub mod xosc;

pub use reference::ReferenceClock;
pub use rosc::RingOscillator;
pub use xosc::CrystalOscillator;

use vstd::prelude::*;

verus! {

/// Base register of the clocks register block.
pub const BASE: usize = 0x40010000;

/// The clocks of the device, numbered as the clock list numbers them.
#[derive(Clone, Copy, Debug, PartialEq, Eq, Structural)]
pub enum Clock {
    Reference,
    XOsc,
    ROsc,
    PLLSystem,
    PLLUSB,
    System,
    USB,
}

impl Clock {
    /// The number of this clock.
    pub open spec fn id_spec(self) -> int {
        match self {
            Clock::Reference => 0,
            Clock::XOsc => 1,
            Clock::ROsc => 2,
            Clock::PLLSystem => 3,
            Clock::PLLUSB => 4,
            Clock::System => 5,
            Clock::USB => 6,
        }
    }

    /// The entry of the clock list that records the frequency of this clock, if any.
    pub open spec fn entry_spec(self) -> Option<ClockList> {
        match self {
            Clock::XOsc => Some(ClockList::XOsc),
            Clock::ROsc => Some(ClockList::ROsc),
            Clock::PLLSystem => Some(ClockList::PLLSystem),
            Clock::PLLUSB => Some(ClockList::PLLUSB),
            _ => None,
        }
    }

    /// Returns the entry of the clock list that records the frequency of this clock.
    pub fn entry(&self) -> (r: Option<ClockList>)
        ensures
            r == self.entry_spec(),
    {
        match self {
            Clock::XOsc => Some(ClockList::XOsc),
            Clock::ROsc => Some(ClockList::ROsc),
            Clock::PLLSystem => Some(ClockList::PLLSystem),
            Clock::PLLUSB => Some(ClockList::PLLUSB),
            _ => None,
        }
    }

    /// Returns the number of this clock.
    pub fn id(&self) -> (r: usize)
        ensures
            r == self.id_spec(),
    {
        match self {
            Clock::Reference => 0,
            Clock::XOsc => 1,
            Clock::ROsc => 2,
            Clock::PLLSystem => 3,
            Clock::PLLUSB => 4,
            Clock::System => 5,
            Clock::USB => 6,
        }
    }
}

/// Number of slots of the clock frequency list.
pub const CLOCK_SLOTS: usize = 4;

/// The list of current clock frequencies, in Hz, one slot per listed clock.
pub struct ClockTable {
    frequencies: [u32; 4],
}

impl View for ClockTable {
    type V = Seq<u32>;

    closed spec fn view(&self) -> Seq<u32> {
        self.frequencies@
    }
}

impl ClockTable {
    /// A list with every frequency at zero.
    pub fn new() -> (t: Self)
        ensures
            t@ == seq![0u32, 0u32, 0u32, 0u32],
    {
        ClockTable { frequencies: [0, 0, 0, 0] }
    }

    /// The list always has four slots.
    pub proof fn lemma_len(&self)
        ensures
            self@.len() == 4,
    {
    }

    /// Returns the frequency stored in slot `index`.
    pub fn get(&self, index: usize) -> (r: u32)
        requires
            index < 4,
        ensures
            r == self@[index as int],
    {
        self.frequencies[index]
    }

    /// Stores `value` in slot `index`.
    pub fn set(&mut self, index: usize, value: u32)
        requires
            index < 4,
        ensures
            final(self)@ == old(self)@.update(index as int, value),
    {
        self.frequencies[index] = value;
    }
}

/// Common trait of the clocks that report their frequency in the clock list.
pub trait ClockTrait {
    /// The clock as the clock list numbers it.
    spec fn clock_spec() -> Clock;

    /// Returns the clock as the clock list numbers it.
    fn clockid() -> (c: Clock)
        ensures
            c == Self::clock_spec(),
    ;

    /// Gets the current frequency of this clock, as recorded in its entry of the clock
    /// list; a clock the list does not record (the reference clock) reports 0.
    fn current(table: &ClockTable) -> (r: u32)
        ensures
            r == match Self::clock_spec().entry_spec() {
                Some(entry) => table@[entry.index_spec()],
                None => 0,
            },
    {
        let id = Self::clockid();
        match id.entry() {
            Some(entry) => entry.read(table),
            None => 0,
        }
    }
}

/// Clocks whose frequency is kept in the clock list.
#[derive(Clone, Copy, Debug, PartialEq, Eq, Structural)]
pub enum ClockList {
    ROsc,
    XOsc,
    PLLSystem,
    PLLUSB,
}

impl ClockList {
    /// The slot of this clock in the clock list.
    pub open spec fn index_spec(self) -> int {
        match self {
            ClockList::ROsc => 0,
            ClockList::XOsc => 1,
            ClockList::PLLSystem => 2,
            ClockList::PLLUSB => 3,
        }
    }

    /// Returns the slot of this clock in the clock list.
    pub fn index(&self) -> (r: usize)
        ensures
            r == self.index_spec(),
    {
        match self {
            ClockList::ROsc => 0,
            ClockList::XOsc => 1,
            ClockList::PLLSystem => 2,
            ClockList::PLLUSB => 3,
        }
    }

    /// Returns the current frequency of the given clock.
    pub fn read(&self, table: &ClockTable) -> (r: u32)
        ensures
            r == table@[self.index_spec()],
    {
        proof {
            table.lemma_len();
        }
        table.get(self.index())
    }

    /// Updates the clock's current frequency.
    pub fn write(&self, table: &mut ClockTable, val: u32)
        ensures
            final(table)@ == old(table)@.update(self.index_spec(), val),
    {
        proof {
            table.lemma_len();
        }
        table.set(self.index(), val);
    }
}

/// Each listed clock has a slot of its own in the four slot list.
pub proof fn lemma_slots_distinct(a: ClockList, b: ClockList)
    ensures
        0 <= a.index_spec() < 4,
        (a.index_spec() == b.index_spec()) == (a == b),
{
}

/// Reading a clock after writing it gives the written frequency; writing a clock leaves
/// the other clocks of the list unchanged.
pub proof fn lemma_read_after_write(table: Seq<u32>, written: ClockList, read: ClockList, val: u32)
    requires
        table.len() == 4,
    ensures
        table.update(written.index_spec(), val)[read.index_spec()] == if read == written {
            val
        } else {
            table[read.index_spec()]
        },
{
}

/// Base clock sources: those which will not glitch or fail in case of device failure.
#[derive(Clone, Copy, Debug, PartialEq, Eq, Structural)]
pub enum BaseClock {
    RingOscillator,
    CrystalOscillator,
    LowPowerOscillator,
}

impl BaseClock {
    /// The selector value of this source.
    pub open spec fn value_spec(self) -> u32 {
        match self {
            BaseClock::RingOscillator => 0,
            BaseClock::CrystalOscillator => 2,
            BaseClock::LowPowerOscillator => 3,
        }
    }

    /// Returns the selector value of this source.
    pub fn value(&self) -> (r: u32)
        ensures
            r == self.value_spec(),
    {
        match self {
            BaseClock::RingOscillator => 0,
            BaseClock::CrystalOscillator => 2,
            BaseClock::LowPowerOscillator => 3,
        }
    }
}

/// Source clocks: those which can be fed to any of the main clocks of the device.
#[derive(Clone, Copy, Debug, PartialEq, Eq, Structural)]
pub enum SourceClock {
    ReferenceClock,
    PLLSystem,
    PLLUSB,
    RingOscillator,
    CrystalOscillator,
}

impl SourceClock {
    /// The selector value of this source: the auxiliary source in bits 5 and up, and bit 0
    /// set for every source but the reference clock.
    pub open spec fn value_spec(self) -> u32 {
        match self {
            SourceClock::ReferenceClock => 0,
            SourceClock::PLLSystem => 1,
            SourceClock::PLLUSB => (1u32 << 5) | 1,
            SourceClock::RingOscillator => (2u32 << 5) | 1,
            SourceClock::CrystalOscillator => (3u32 << 5) | 1,
        }
    }

    /// Returns the selector value of this source.
    pub fn value(&self) -> (r: u32)
        ensures
            r == self.value_spec(),
    {
        match self {
            SourceClock::ReferenceClock => 0,
            SourceClock::PLLSystem => 1,
            SourceClock::PLLUSB => (1u32 << 5) | 1,
            SourceClock::RingOscillator => (2u32 << 5) | 1,
            SourceClock::CrystalOscillator => (3u32 << 5) | 1,
        }
    }
}

/// The system clock, feeding the CPU cores and general logic.
pub struct SystemClock;

impl SystemClock {
    /// Address of the control register of the system clock.
    pub const CONTROL: usize = 0x4001003C;

    /// Restores the system clock to its default source, the reference clock.
    pub fn restore(&mut self) -> (op: RegisterOp)
        ensures
            op == (RegisterOp::Write { address: Self::CONTROL, value: 0 }),
    {
        RegisterOp::Write { address: Self::CONTROL, value: 0 }
    }

    /// Selects the source of the system clock.
    pub fn configure(&mut self, source: SourceClock) -> (op: RegisterOp)
        ensures
            op == (RegisterOp::Write { address: Self::CONTROL, value: source.value_spec() }),
    {
        RegisterOp::Write { address: Self::CONTROL, value: source.value() }
    }
}

/// The auxiliary source number of the system clock for `source`: the system PLL 0, the USB
/// PLL 1, the ring oscillator 2, the crystal oscillator 3.
pub open spec fn system_aux(source: SourceClock) -> u32 {
    match source {
        SourceClock::PLLUSB => 1,
        SourceClock::RingOscillator => 2,
        SourceClock::CrystalOscillator => 3,
        _ => 0,
    }
}

/// The control value of the system clock for `source` selects it: bit 0 (SRC) is clear for
/// the reference clock and set for an auxiliary source, bits 7:5 (AUXSRC) name the auxiliary
/// source, and no other bit is set.
pub proof fn lemma_system_source_fields(source: SourceClock)
    ensures
        (source.value_spec() & 1 == 0) == (source == SourceClock::ReferenceClock),
        (source.value_spec() >> 5) & 7 == system_aux(source),
        source.value_spec() & !0xE1u32 == 0,
{
    assert(forall|a: u32| a < 8 ==> {
        let v = #[trigger] ((a << 5) | 1);
        &&& v & 1 == 1
        &&& (v >> 5) & 7 == a
        &&& v & !0xE1u32 == 0
        &&& (a == 0 ==> v == 1)
    }) by (bit_vector);
    assert(((1u32 << 5) | 1) & 1 == 1);
    assert(((2u32 << 5) | 1) & 1 == 1);
    assert(((3u32 << 5) | 1) & 1 == 1);
    assert(((0u32 << 5) | 1) == 1);
    assert(0u32 & 1 == 0 && (0u32 >> 5) & 7 == 0 && 0u32 & !0xE1u32 == 0) by (bit_vector);
}

/// The control value of the reference clock for `base` is its SRC field: 0 for the ring
/// oscillator, 2 for the crystal oscillator, 3 for the low-power oscillator (1, the
/// auxiliary source, is never chosen).
pub proof fn lemma_reference_source_field(base: BaseClock)
    ensures
        base.value_spec() < 4,
        base.value_spec() != 1,
        (base.value_spec() == 0) == (base == BaseClock::RingOscillator),
        (base.value_spec() == 2) == (base == BaseClock::CrystalOscillator),
        (base.value_spec() == 3) == (base == BaseClock::LowPowerOscillator),
{
}

/// Definition of an external clock, with its nominal frequency in Hz.
pub struct ExternalClock<const N: usize>(pub u32);

/// Definition of the Low-Power Oscillator.
pub struct LPOscillator;

/// Definition of a configurable clock tree.
/// Any clock tree can be configured and swapped at runtime.
pub struct ClockTree<'a> {
    /// External crystal oscillator.
    pub xosc: &'a CrystalOscillator,
    /// System PLL configuration.
    pub pllsys: Option<&'a PLLConfig>,
    /// USB PLL configuration.
    pub pllusb: Option<&'a PLLConfig>,
    /// The reference clock used by the whole device.
    pub reference: BaseClock,
    /// The system clock feeds the CPU cores and general logic.
    pub system: SourceClock,
}

/// Control over the clock tree of the device.
pub struct Clocks {
    /// PLL dedicated to the general system. Has a nominal maximum frequency of 150 MHz.
    pllsys: PLL<0>,
    /// PLL dedicated to the USB system. Has a nominal maximum frequency of 48 MHz.
    pllusb: PLL<1>,
    rosc: RingOscillator,
    reference: ReferenceClock,
    system: SystemClock,
}

/// The register accesses that program the PLL `N` with `config` for a crystal of
/// frequency `freq`, if the tree configures it and a configuration is found.
pub open spec fn pll_spec<const N: usize>(config: Option<&PLLConfig>, freq: u32) -> Seq<RegisterOp> {
    match config {
        Some(c) => match configuration_spec(*c, freq) {
            Some((fbdiv, refdiv, diva, divb)) => PLL::<N>::program_spec(refdiv, fbdiv, diva, divb),
            None => Seq::<RegisterOp>::empty(),
        },
        None => Seq::<RegisterOp>::empty(),
    }
}

/// The clock list `table` after the PLL recorded in entry `entry` is frozen with
/// `config` for a crystal of frequency `freq`, if the tree configures it.
pub open spec fn pll_table_spec(table: Seq<u32>, config: Option<&PLLConfig>, freq: u32, entry: ClockList) -> Seq<u32> {
    match config {
        Some(c) => match configuration_spec(*c, freq) {
            Some((fbdiv, refdiv, diva, divb)) => table.update(
                entry.index_spec(),
                output_spec(freq, fbdiv, diva, divb) as u32,
            ),
            None => table,
        },
        None => table,
    }
}

/// The register accesses that start the crystal of `tree` and lock its PLLs, or stop
/// the crystal when the tree has none.
pub open spec fn oscillators_spec(tree: ClockTree) -> Seq<RegisterOp> {
    let freq = tree.xosc.freq_spec();
    if freq == 0 {
        seq![RegisterOp::Write { address: CrystalOscillator::CTRL, value: 0xD1Eu32 << 12 }]
    } else {
        tree.xosc.enable_spec(true) + pll_spec::<0>(tree.pllsys, freq) + pll_spec::<1>(tree.pllusb, freq)
    }
}

/// The register accesses that apply `tree`: the ring oscillator back to its default, the
/// reference and system clocks back to their default sources, the crystal started (with its
/// PLLs) or stopped, and the reference and system clocks switched to their new sources.
pub open spec fn apply_spec(tree: ClockTree) -> Seq<RegisterOp> {
    let restore = seq![
        RegisterOp::Write { address: RingOscillator::FREQA, value: 0 },
        RegisterOp::Write { address: RingOscillator::FREQB, value: 0 },
        RegisterOp::Write { address: RingOscillator::CONTROL, value: RingOscillator::enabled_control() },
        RegisterOp::Write { address: ReferenceClock::CONTROL, value: 0 },
        RegisterOp::Write { address: SystemClock::CONTROL, value: 0 },
    ];
    let select = seq![
        RegisterOp::Write { address: ReferenceClock::CONTROL, value: tree.reference.value_spec() },
        RegisterOp::Write { address: SystemClock::CONTROL, value: tree.system.value_spec() },
    ];
    restore + oscillators_spec(tree) + select
}

/// The clock list after applying `tree` to `table`: the crystal's frequency (0 when
/// stopped), then the frequencies reached by the system PLL and the USB PLL.
pub open spec fn apply_table_spec(tree: ClockTree, table: Seq<u32>) -> Seq<u32> {
    let freq = tree.xosc.freq_spec();
    if freq == 0 {
        table.update(ClockList::XOsc.index_spec(), 0)
    } else {
        let started = table.update(ClockList::XOsc.index_spec(), freq);
        let sys = pll_table_spec(started, tree.pllsys, freq, ClockList::PLLSystem);
        pll_table_spec(sys, tree.pllusb, freq, ClockList::PLLUSB)
    }
}

impl Clocks {
    /// Takes control over the clock tree.
    pub fn instance() -> Self {
        Clocks {
            pllsys: PLL::<0>,
            pllusb: PLL::<1>,
            rosc: RingOscillator,
            reference: ReferenceClock,
            system: SystemClock,
        }
    }

    /// Programs the PLLs that `tree` configures from the running crystal of frequency `freq`.
    fn lock_plls(&mut self, tree: &ClockTree, freq: u32, table: &mut ClockTable, ops: &mut Vec<RegisterOp>)
        requires
            freq > 0,
        ensures
            final(ops)@ == old(ops)@ + pll_spec::<0>(tree.pllsys, freq) + pll_spec::<1>(tree.pllusb, freq),
            final(table)@ == pll_table_spec(
                pll_table_spec(old(table)@, tree.pllsys, freq, ClockList::PLLSystem),
                tree.pllusb,
                freq,
                ClockList::PLLUSB,
            ),
    {
        let ghost ops0 = ops@;
        if let Some(config) = tree.pllsys {
            let _ = self.pllsys.freeze(freq, config, table, ops);
        }
        let ghost ops1 = ops@;
        assert(ops1 == ops0 + pll_spec::<0>(tree.pllsys, freq));
        if let Some(config) = tree.pllusb {
            let _ = self.pllusb.freeze(freq, config, table, ops);
        }
        assert(ops@ == ops1 + pll_spec::<1>(tree.pllusb, freq));
    }

    /// Starts or stops the crystal as `tree` asks, and locks the PLLs it configures.
    fn start_oscillators(&mut self, tree: &ClockTree, table: &mut ClockTable, ops: &mut Vec<RegisterOp>)
        ensures
            final(ops)@ == old(ops)@ + oscillators_spec(*tree),
            final(table)@ == apply_table_spec(*tree, old(table)@),
    {
        let ghost ops0 = ops@;
        let freq = tree.xosc.freq();
        if freq == 0 {
            let op = tree.xosc.disable(table);
            ops.push(op);
        } else {
            let mut started = tree.xosc.enable(true, table);
            ops.append(&mut started);
            self.lock_plls(tree, freq, table, ops);
            assert(ops@ == ops0 + oscillators_spec(*tree));
        }
    }

    /// Applies the given clock tree to the device and records the new frequencies.
    /// External peripherals may glitch while the returned accesses are carried out.
    pub fn apply(&mut self, tree: &ClockTree, table: &mut ClockTable) -> (ops: Vec<RegisterOp>)
        ensures
            ops@ == apply_spec(*tree),
            final(table)@ == apply_table_spec(*tree, old(table)@),
    {
        // Enable the ROSC in basic mode, swap REFERENCE to it and set SYSTEM to REFERENCE.
        let mut ops = self.rosc.restore();
        ops.push(self.reference.restore());
        ops.push(self.system.restore());
        self.start_oscillators(tree, table, &mut ops);

        // Set the reference clock and system clocks.
        ops.push(self.reference.configure(tree.reference));
        ops.push(self.system.configure(tree.system));
        proof {
            assert(ops@ == apply_spec(*tree));
        }
        ops
    }
}

} // verus!

use crate::register::RegisterOp;
use pll::{configuration_spec, output_spec, PLLConfig, PLL};
