//! Untyped, anonymous abstraction over a GPIO output.

use vstd::prelude::*;

use super::Output;
use crate::gpio::{control_address, pad_address, GPIOAny, GPIOTyped};
use crate::register::{lemma_single_bit, RegisterOp};

verus! {

/// Atomic SET register of the first bank of GPIO outputs.
pub const SET: usize = 0xD0000018;

/// Atomic CLR register of the first bank of GPIO outputs.
pub const CLR: usize = 0xD0000020;

/// Atomic XOR register of the first bank of GPIO outputs.
pub const XOR: usize = 0xD0000028;

/// GPIO control configuration that sets the SIO as the controller, output forced on.
pub const OUTPUT_CONTROL: u32 = 0xC005;

/// GPIO pad configuration that sets the SIO as output.
pub const OUTPUT_PAD: u32 = 0x33;

/// GPIO control configuration that sets no GPIO controller.
pub const RELEASE_CONTROL: u32 = 0x1F;

/// GPIO pad configuration that disables the GPIO.
pub const RELEASE_PAD: u32 = 0x80;

/// The write that hits the bit of `pin` in the atomic register of the bank `base`.
pub open spec fn sio_spec(base: usize, pin: u8) -> RegisterOp {
    RegisterOp::Write { address: (base + 4 * (pin / 32)) as usize, value: 1u32 << (pin % 32) as u32 }
}

/// An output access reaches exactly its pin: the write goes to the register of the pin's
/// bank of 32, `r` words past the first bank's register `base` (so pins 0 to 31 use `base`
/// itself), and sets in it exactly the bit `k` with `32 * r + k` equal to the pin.
pub proof fn lemma_sio_hits_pin(base: usize, pin: u8)
    requires
        base == SET || base == CLR || base == XOR,
        pin < 64,
    ensures
        sio_spec(base, pin) matches RegisterOp::Write { address, value } && {
            &&& address >= base
            &&& (address - base) % 4 == 0
            &&& 32 * ((address - base) / 4) <= pin < 32 * ((address - base) / 4) + 32
            &&& pin < 32 ==> address == base
            &&& forall|k: u32| k < 32 ==> (#[trigger] ((value >> k) & 1) == 1 <==> 32 * ((address - base) / 4) + k == pin)
        },
{
    let m = (pin % 32) as u32;
    lemma_single_bit(m);
    let address = (base + 4 * (pin / 32)) as usize;
    assert((address - base) / 4 == pin / 32);
    assert forall|k: u32| k < 32 implies (#[trigger] (((1u32 << m) >> k) & 1) == 1 <==> 32 * ((address - base) / 4) + k == pin) by {
        assert(((1u32 << m) >> k) & 1 == 1 <==> k == m);
    }
}

/// The two writes that configure pin `n`.
pub open spec fn configure_spec(n: int, control: u32, pad: u32) -> Seq<RegisterOp> {
    seq![
        RegisterOp::Write { address: control_address(n) as usize, value: control },
        RegisterOp::Write { address: pad_address(n) as usize, value: pad },
    ]
}

/// Untyped, anonymous abstraction over a GPIO output.
pub struct OutputAny(u8);

impl View for OutputAny {
    /// The pin number.
    type V = u8;

    closed spec fn view(&self) -> u8 {
        self.0
    }
}

impl OutputAny {
    /// The write that hits this pin in the atomic register of the bank `base`.
    fn sio(&self, base: usize) -> (op: RegisterOp)
        requires
            base == SET || base == CLR || base == XOR,
            self@ < 64,
        ensures
            op == sio_spec(base, self@),
    {
        let pin = self.0;
        RegisterOp::Write { address: base + 4 * ((pin / 32) as usize), value: 1u32 << ((pin % 32) as u32) }
    }

    /// Releases the pin: no controller, pad disabled.
    pub fn into_any(self) -> (r: (GPIOAny, Vec<RegisterOp>))
        ensures
            r.0@ == self@,
            r.1@ == configure_spec(self@ as int, RELEASE_CONTROL, RELEASE_PAD),
    {
        let gpio = GPIOAny::new(self.0);
        let ops = gpio.configure(RELEASE_CONTROL, RELEASE_PAD);
        (gpio, ops)
    }

    /// Releases the pin as the typed pin `N`; fails when this is not pin `N`.
    pub fn try_into_typed<const N: usize>(self) -> (r: Result<(GPIOTyped<N>, Vec<RegisterOp>), ()>)
        ensures
            N != self@ ==> r is Err,
            N == self@ ==> (r matches Ok((_, ops)) && ops@ == configure_spec(
                N as int,
                RELEASE_CONTROL,
                RELEASE_PAD,
            )),
    {
        // If the GPIO index does not match, fail the conversion early.
        if N != self.0 as usize {
            return Err(());
        }
        let gpio = GPIOTyped::<N>::instance();
        let ops = gpio.configure(RELEASE_CONTROL, RELEASE_PAD);
        Ok((gpio, ops))
    }
}

impl Output for OutputAny {
    open spec fn drivable(&self) -> bool {
        self@ < 64
    }

    fn can_drive(&self) -> (r: bool) {
        self.0 < 64
    }

    fn set_high(&mut self) -> (op: RegisterOp)
        ensures
            op == sio_spec(SET, old(self)@),
            final(self)@ == old(self)@,
    {
        self.sio(SET)
    }

    fn set_low(&mut self) -> (op: RegisterOp)
        ensures
            op == sio_spec(CLR, old(self)@),
            final(self)@ == old(self)@,
    {
        self.sio(CLR)
    }

    fn toggle(&mut self) -> (op: RegisterOp)
        ensures
            op == sio_spec(XOR, old(self)@),
            final(self)@ == old(self)@,
    {
        self.sio(XOR)
    }
}

impl GPIOAny {
    /// Turns the pin into an output driven by the SIO.
    pub fn into_output(self) -> (r: (OutputAny, Vec<RegisterOp>))
        ensures
            r.0@ == self@,
            r.1@ == configure_spec(self@ as int, OUTPUT_CONTROL, OUTPUT_PAD),
    {
        let n = self.number();
        let ops = self.configure(OUTPUT_CONTROL, OUTPUT_PAD);
        (OutputAny(n), ops)
    }
}

} // verus!
