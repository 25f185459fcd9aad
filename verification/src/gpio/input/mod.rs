//! Module for GPIO as input.

use vstd::prelude::*;

use crate::gpio::GPIOAny;
use crate::register::RegisterOp;

verus! {

/// Base address of the IO bank registers.
pub const BASE: usize = 0x40028000;

/// Raw interrupt registers.
pub const INTR: usize = 0x40028230;

/// Interrupt enable registers of the first core.
pub const INTE: usize = 0x40028248;

/// Interrupt force registers of the first core.
pub const INTF: usize = 0x40028260;

/// Interrupt status registers of the first core.
pub const INTS: usize = 0x40028278;

/// Distance between the interrupt registers of two cores.
pub const CPUSTRIDE: usize = 0x48;

/// Mask of the four event bits of a pin.
pub const EVENT_MASK: u32 = 0xF;

/// List of events that can be captured from a GPIO input.
#[derive(Clone, Copy, Debug, PartialEq, Eq, Structural)]
pub enum Event {
    /// Wait for a low level (logical 0).
    LevelLow,
    /// Wait for a high level (logical 1).
    LevelHigh,
    /// Wait for a transition from high to low.
    EdgeLow,
    /// Wait for a transition from low to high.
    EdgeHigh,
    /// Waits for any transition (low to high or high to low).
    EdgeAny,
}

impl Event {
    /// The event bits of this event.
    pub open spec fn bits_spec(self) -> u32 {
        match self {
            Event::LevelLow => 0b0001,
            Event::LevelHigh => 0b0010,
            Event::EdgeLow => 0b0100,
            Event::EdgeHigh => 0b1000,
            Event::EdgeAny => 0b1100,
        }
    }

    /// Returns the event bits of this event.
    pub fn bits(&self) -> (r: u32)
        ensures
            r == self.bits_spec(),
    {
        match self {
            Event::LevelLow => 0b0001,
            Event::LevelHigh => 0b0010,
            Event::EdgeLow => 0b0100,
            Event::EdgeHigh => 0b1000,
            Event::EdgeAny => 0b1100,
        }
    }
}

/// The interrupt registers of the core `cpu` can be addressed.
pub open spec fn cpu_fits(cpu: u32) -> bool {
    INTE + 0x7C + CPUSTRIDE * cpu <= usize::MAX
}

/// Offset of the interrupt register of the group of eight pins holding `pin`.
pub open spec fn group_offset(pin: u8) -> int {
    (pin / 8) * 4
}

/// Position of the four event bits of `pin` within its group's interrupt registers.
pub open spec fn event_shift(pin: u8) -> u32 {
    (4 * (pin % 8)) as u32
}

/// Returns the position of the four event bits of `pin` within its group's registers.
fn event_offset(pin: u8) -> (r: u32)
    ensures
        r == event_shift(pin),
        r <= 28,
{
    4 * ((pin % 8) as u32)
}

/// Untyped, anonymous abstraction over a GPIO input.
pub struct Input(u8);

impl View for Input {
    /// The pin number.
    type V = u8;

    closed spec fn view(&self) -> u8 {
        self.0
    }
}

impl Input {
    /// Consumes the `Input` to make a `WaitEvent` for `event` on the core `cpu`, with the
    /// access that disables the pin's interrupt.
    /// The `WaitEvent` can later be consumed to regenerate the `Input`.
    pub fn signal(self, event: Event, cpu: u32) -> (r: (WaitEvent, RegisterOp))
        requires
            cpu_fits(cpu),
        ensures
            r.0@ == (self@, event, false),
            r.1 == (RegisterOp::ClearBits {
                address: (INTE + group_offset(self@) + CPUSTRIDE * cpu) as usize,
                bits: EVENT_MASK << event_shift(self@),
            }),
    {
        WaitEvent::new(self.0, event, cpu)
    }

    /// Consumes the `Input` to regenerate the `GPIOAny` for the same pin.
    pub fn pin(self) -> (r: GPIOAny)
        ensures
            r@ == self@,
    {
        GPIOAny::new(self.0)
    }
}

/// Waits for a specific event in an input GPIO pin.
pub struct WaitEvent {
    /// The pin used as input.
    pin: u8,
    /// The event tracked.
    event: Event,
    /// Tracks if the waker has been registered with the IRQ handler.
    registered: bool,
}

impl View for WaitEvent {
    /// The pin, the event and whether the waker is registered.
    type V = (u8, Event, bool);

    closed spec fn view(&self) -> (u8, Event, bool) {
        (self.pin, self.event, self.registered)
    }
}

impl WaitEvent {
    /// Creates a new `WaitEvent` for the given pin on the core `cpu`, with the access that
    /// clears previous triggers and disables the interrupt.
    fn new(pin: u8, event: Event, cpu: u32) -> (r: (Self, RegisterOp))
        requires
            cpu_fits(cpu),
        ensures
            r.0@ == (pin, event, false),
            r.1 == (RegisterOp::ClearBits {
                address: (INTE + group_offset(pin) + CPUSTRIDE * cpu) as usize,
                bits: EVENT_MASK << event_shift(pin),
            }),
    {
        let stride = CPUSTRIDE * (cpu as usize);
        let register = (pin as usize / 8) * 4;
        let offset = event_offset(pin);
        let op = RegisterOp::ClearBits { address: INTE + register + stride, bits: EVENT_MASK << offset };
        (Self { pin, event, registered: false }, op)
    }

    /// Consumes the `WaitEvent` to regenerate the `Input` that created it.
    pub fn input(self) -> (r: Input)
        ensures
            r@ == self@.0,
    {
        Input(self.pin)
    }

    /// Returns the pin this `WaitEvent` waits on.
    pub fn pin(&self) -> (r: u8)
        ensures
            r == self@.0,
    {
        self.pin
    }

    /// Returns `true` once a poll registered the waker and the event has not completed yet.
    pub fn registered(&self) -> (r: bool)
        ensures
            r == self@.2,
    {
        self.registered
    }

    /// Address of the interrupt enable register of the core `cpu` for this pin.
    pub fn enable_address(&self, cpu: u32) -> (r: usize)
        requires
            cpu_fits(cpu),
        ensures
            r == INTE + group_offset(self@.0) + CPUSTRIDE * cpu,
    {
        INTE + (self.pin as usize / 8) * 4 + CPUSTRIDE * (cpu as usize)
    }

    /// First half of a poll on the core `cpu`: unless already registered, marks the waker
    /// as registered and returns the accesses that remove previous triggers and enable only
    /// the requested event.
    pub fn register(&mut self, cpu: u32) -> (ops: Vec<RegisterOp>)
        requires
            cpu_fits(cpu),
        ensures
            final(self)@ == (old(self)@.0, old(self)@.1, true),
            ops@ == if old(self)@.2 {
                Seq::<RegisterOp>::empty()
            } else {
                seq![
                    RegisterOp::ClearBits {
                        address: (INTR + group_offset(old(self)@.0)) as usize,
                        bits: EVENT_MASK << event_shift(old(self)@.0),
                    },
                    RegisterOp::SetBits {
                        address: (INTE + group_offset(old(self)@.0) + CPUSTRIDE * cpu) as usize,
                        bits: old(self)@.1.bits_spec() << event_shift(old(self)@.0),
                    },
                ]
            },
    {
        let mut ops: Vec<RegisterOp> = Vec::new();
        if !self.registered {
            self.registered = true;
            let stride = CPUSTRIDE * (cpu as usize);
            let register = (self.pin as usize / 8) * 4;
            let offset = event_offset(self.pin);
            ops.push(RegisterOp::ClearBits { address: INTR + register, bits: EVENT_MASK << offset });
            ops.push(
                RegisterOp::SetBits {
                    address: INTE + register + stride,
                    bits: self.event.bits() << offset,
                },
            );
        }
        ops
    }

    /// Second half of a poll, given the value `inte` of the interrupt enable register: the
    /// event happened when the IRQ handler disabled the pin's interrupt; the waker is then
    /// released.
    pub fn complete(&mut self, inte: u32) -> (ready: bool)
        ensures
            ready == ((inte >> event_shift(old(self)@.0)) & EVENT_MASK == 0),
            final(self)@ == (old(self)@.0, old(self)@.1, old(self)@.2 && !ready),
    {
        let offset = event_offset(self.pin);
        if ((inte >> offset) & EVENT_MASK) == 0 {
            self.registered = false;
            return true;
        }
        false
    }
}

/// The accesses and wake-ups of the IRQ handler for the group of eight pins `group`, on
/// the core whose interrupt registers are `stride` bytes away, for the pins `0..k` of the
/// group, given the group's interrupt status `ints`: each pin with a pending event has its
/// interrupt disabled and its task woken.
pub open spec fn irq_spec(group: int, stride: int, ints: u32, k: int) -> (Seq<RegisterOp>, Seq<u8>)
    decreases k,
{
    if k <= 0 {
        (Seq::<RegisterOp>::empty(), Seq::<u8>::empty())
    } else {
        let (ops, pins) = irq_spec(group, stride, ints, k - 1);
        let shift = ((k - 1) * 4) as u32;
        if (ints >> shift) & EVENT_MASK != 0 {
            (
                ops.push(RegisterOp::ClearBits {
                    address: (INTE + group * 4 + stride) as usize,
                    bits: EVENT_MASK << shift,
                }),
                pins.push((group * 8 + k - 1) as u8),
            )
        } else {
            (ops, pins)
        }
    }
}

/// IRQ handler logic for the group of eight pins `group` on the core `cpu`, given the
/// group's interrupt status register `ints`: the accesses that disable the interrupts of
/// the pins with an event, and the pins whose tasks must be woken.
pub fn irq_group(group: usize, cpu: u32, ints: u32) -> (r: (Vec<RegisterOp>, Vec<u8>))
    requires
        group < 8,
        cpu_fits(cpu),
    ensures
        (r.0@, r.1@) == irq_spec(group as int, (CPUSTRIDE * cpu) as int, ints, 8),
{
    let stride = CPUSTRIDE * (cpu as usize);
    let groupx4 = group * 4;
    let mut ops: Vec<RegisterOp> = Vec::new();
    let mut pins: Vec<u8> = Vec::new();
    let mut pin: usize = 0;
    while pin < 8
        invariant
            group < 8,
            cpu_fits(cpu),
            stride == CPUSTRIDE * cpu,
            groupx4 == group * 4,
            pin <= 8,
            (ops@, pins@) == irq_spec(group as int, stride as int, ints, pin as int),
        decreases 8 - pin,
    {
        let pinx4 = (pin * 4) as u32;
        let event = (ints >> pinx4) & EVENT_MASK;
        if event != 0 {
            ops.push(RegisterOp::ClearBits { address: INTE + groupx4 + stride, bits: EVENT_MASK << pinx4 });
            pins.push((group * 8 + pin) as u8);
        }
        pin = pin + 1;
    }
    (ops, pins)
}

/// Once the handler has stepped past the slot of `pin`, the pin is among the woken ones and
/// its event bits are among the cleared ones, provided its status bits were set.
proof fn lemma_irq_reaches(pin: u8, stride: int, ints: u32, k: int)
    requires
        pin % 8 < k <= 8,
        (ints >> event_shift(pin)) & EVENT_MASK != 0,
    ensures
        irq_spec((pin / 8) as int, stride, ints, k).1.contains(pin),
        irq_spec((pin / 8) as int, stride, ints, k).0.contains(
            RegisterOp::ClearBits {
                address: (INTE + (pin / 8) * 4 + stride) as usize,
                bits: EVENT_MASK << event_shift(pin),
            },
        ),
    decreases k,
{
    let group = (pin / 8) as int;
    let (ops, pins) = irq_spec(group, stride, ints, k - 1);
    let op = RegisterOp::ClearBits {
        address: (INTE + (pin / 8) * 4 + stride) as usize,
        bits: EVENT_MASK << event_shift(pin),
    };
    if k - 1 == pin % 8 {
        assert(((k - 1) * 4) as u32 == event_shift(pin));
        assert(group * 8 + k - 1 == pin);
        assert(irq_spec(group, stride, ints, k).1 == pins.push(pin));
        assert(irq_spec(group, stride, ints, k).1[pins.len() as int] == pin);
        assert(irq_spec(group, stride, ints, k).0 == ops.push(op));
        assert(irq_spec(group, stride, ints, k).0[ops.len() as int] == op);
    } else {
        lemma_irq_reaches(pin, stride, ints, k - 1);
        let i = choose|i: int| 0 <= i < pins.len() && pins[i] == pin;
        let j = choose|j: int| 0 <= j < ops.len() && ops[j] == op;
        assert(irq_spec(group, stride, ints, k).1[i] == pin);
        assert(irq_spec(group, stride, ints, k).0[j] == op);
    }
}

/// An event caught on a waiting pin reaches it: the IRQ handler of the pin's group wakes the
/// pin and disables its interrupt with the very bits and register that `WaitEvent::register`
/// enabled.
pub proof fn lemma_irq_handles_waiting_pin(pin: u8, cpu: u32, ints: u32)
    requires
        pin < 64,
        cpu_fits(cpu),
        (ints >> event_shift(pin)) & EVENT_MASK != 0,
    ensures
        irq_spec((pin / 8) as int, (CPUSTRIDE * cpu) as int, ints, 8).1.contains(pin),
        irq_spec((pin / 8) as int, (CPUSTRIDE * cpu) as int, ints, 8).0.contains(
            RegisterOp::ClearBits {
                address: (INTE + group_offset(pin) + CPUSTRIDE * cpu) as usize,
                bits: EVENT_MASK << event_shift(pin),
            },
        ),
{
    lemma_irq_reaches(pin, (CPUSTRIDE * cpu) as int, ints, 8);
}

/// Once the event bits of `pin` are cleared from the interrupt enable register, the second
/// half of a poll reports the event as ready.
pub proof fn lemma_cleared_event_is_ready(inte: u32, pin: u8)
    ensures
        ((inte & !(EVENT_MASK << event_shift(pin))) >> event_shift(pin)) & EVENT_MASK == 0,
{
    let s = event_shift(pin);
    assert(s <= 28);
    assert(s <= 28 ==> ((inte & !(0xFu32 << s)) >> s) & 0xFu32 == 0) by (bit_vector);
}

/// The hardware event that bit `k` of a pin's four bit interrupt field stands for is one
/// that `event` waits for: bit 0 a low level, bit 1 a high level, bit 2 a falling edge
/// (high to low), bit 3 a rising edge (low to high); any edge is both edges.
pub open spec fn waits_for(event: Event, k: int) -> bool {
    if k == 0 {
        event == Event::LevelLow
    } else if k == 1 {
        event == Event::LevelHigh
    } else if k == 2 {
        event == Event::EdgeLow || event == Event::EdgeAny
    } else if k == 3 {
        event == Event::EdgeHigh || event == Event::EdgeAny
    } else {
        false
    }
}

/// The interrupt enable bits that `WaitEvent::register` sets for `event` on `pin` are the
/// hardware events the wait asks for, in the pin's own field: bit `k` of the register is set
/// exactly when it lies in the four bits of the pin and stands for an event that `event`
/// waits for.
pub proof fn lemma_register_enables_event(pin: u8, event: Event)
    ensures
        forall|k: u32|
            k < 32 ==> (#[trigger] (((event.bits_spec() << event_shift(pin)) >> k) & 1) == 1 <==> (
            event_shift(pin) <= k < event_shift(pin) + 4 && waits_for(event, k - event_shift(pin)))),
{
    let s = event_shift(pin);
    let c = event.bits_spec();
    assert(s <= 28);
    assert(c < 16);
    assert(forall|c: u32, s: u32, k: u32|
        c < 16 && s <= 28 && k < 32 ==> (#[trigger] (((c << s) >> k) & 1) == 1 <==> (s <= k && k < s + 4
            && (c >> ((k - s) as u32)) & 1 == 1))) by (bit_vector);
    assert(forall|j: u32|
        j < 4 ==> {
            &&& ((#[trigger] (1u32 >> j)) & 1 == 1 <==> j == 0)
            &&& ((2u32 >> j) & 1 == 1 <==> j == 1)
            &&& ((4u32 >> j) & 1 == 1 <==> j == 2)
            &&& ((8u32 >> j) & 1 == 1 <==> j == 3)
            &&& ((12u32 >> j) & 1 == 1 <==> (j == 2 || j == 3))
        }) by (bit_vector);
    assert forall|k: u32| k < 32 implies (#[trigger] (((c << s) >> k) & 1) == 1 <==> (s <= k < s + 4
        && waits_for(event, k - s))) by {
        if s <= k < s + 4 {
            let j = (k - s) as u32;
            assert((1u32 >> j) & 1 == 1 <==> j == 0);
            assert(c >> j == match event {
                Event::LevelLow => 1u32 >> j,
                Event::LevelHigh => 2u32 >> j,
                Event::EdgeLow => 4u32 >> j,
                Event::EdgeHigh => 8u32 >> j,
                Event::EdgeAny => 12u32 >> j,
            });
        }
    }
}

} // verus!
