//! Definition of the internal reference clock.

use vstd::prelude::*;

use super::{BaseClock, Clock, ClockTrait};
use crate::register::RegisterOp;

verus! {

/// The reference clock used by the whole device.
pub struct ReferenceClock;

impl ReferenceClock {
    /// Address of the control register of the reference clock.
    pub const CONTROL: usize = 0x40010030;

    /// Restores the reference clock to the default state.
    pub fn restore(&mut self) -> (op: RegisterOp)
        ensures
            op == (RegisterOp::Write { address: Self::CONTROL, value: 0 }),
    {
        RegisterOp::Write { address: Self::CONTROL, value: 0 }
    }

    /// Configures the `ReferenceClock` to source the time from the given clock source.
    pub fn configure(&mut self, source: BaseClock) -> (op: RegisterOp)
        ensures
            op == (RegisterOp::Write { address: Self::CONTROL, value: source.value_spec() }),
    {
        RegisterOp::Write { address: Self::CONTROL, value: source.value() }
    }
}

impl ClockTrait for ReferenceClock {
    open spec fn clock_spec() -> Clock {
        Clock::Reference
    }

    fn clockid() -> (c: Clock) {
        Clock::Reference
    }
}

} // verus!
