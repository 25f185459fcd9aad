//! High level Cortex-M peripherals.

pub mod cp;
pub mod mpu;

pub use cp::CoprocessorControl;
pub use mpu::MemoryProtection;

use vstd::prelude::*;

use crate::register::RegisterOp;

verus! {

/// Access to the system control peripherals of a core.
pub struct SystemControl {
    /// Access to the general configuration registers.
    pub configuration: Configuration,
    /// Access to the External Coprocessor control registers.
    pub coprocessor: CoprocessorControl,
    /// Access to the Memory Protection Unit control registers.
    pub mpu: MemoryProtection,
}

impl SystemControl {
    /// Takes control over the system control peripherals.
    pub fn instance() -> Self {
        SystemControl {
            configuration: Configuration::instance(),
            coprocessor: CoprocessorControl::instance(),
            mpu: MemoryProtection::instance(),
        }
    }
}

/// `register` with bit `offset` replaced by `value`.
pub open spec fn with_bit(register: u32, offset: u32, value: bool) -> u32 {
    (register & !(1u32 << offset)) | ((if value { 1u32 } else { 0u32 }) << offset)
}

/// Access to the general configuration registers.
pub struct Configuration;

impl Configuration {
    /// Vector Table Offset Register.
    pub const VTOR: usize = 0xE000ED08;

    /// System Control Register.
    pub const SCR: usize = 0xE000ED10;

    /// Configuration and Control Register.
    pub const CCR: usize = 0xE000ED14;

    /// Takes control over the configuration registers.
    pub fn instance() -> Self {
        Configuration
    }

    /// Replaces bit `offset` of the register value `register` by `value`; every other bit
    /// is kept.
    pub fn set(register: u32, offset: u32, value: bool) -> (r: u32)
        requires
            offset < 32,
        ensures
            r == with_bit(register, offset, value),
            (r >> offset) & 1 == (if value { 1u32 } else { 0u32 }),
            forall|i: u32| i < 32 && i != offset ==> #[trigger] ((r >> i) & 1) == (register >> i) & 1,
    {
        let v: u32 = if value { 1 } else { 0 };
        let r = (register & !(1u32 << offset)) | (v << offset);
        assert((r >> offset) & 1 == v) by (bit_vector)
            requires
                offset < 32,
                v < 2,
                r == (register & !(1u32 << offset)) | (v << offset),
        ;
        assert(forall|i: u32| i < 32 && i != offset ==> #[trigger] ((r >> i) & 1) == (register >> i) & 1)
            by (bit_vector)
            requires
                offset < 32,
                v < 2,
                r == (register & !(1u32 << offset)) | (v << offset),
        ;
        r
    }

    /// Controls the behaviour of the Usage Fault for Division by Zero exception.
    /// If set, dividing by zero will generate an exception. `ccr` is the current value of
    /// the Configuration and Control Register.
    pub fn divbyzero(&mut self, ccr: u32, forbid: bool) -> (op: RegisterOp)
        ensures
            op == (RegisterOp::Write { address: Self::CCR, value: with_bit(ccr, 4, forbid) }),
    {
        RegisterOp::Write { address: Self::CCR, value: Self::set(ccr, 4, forbid) }
    }

    /// Controls the behaviour of the Memory Fault for Unaligned Access exception.
    /// If set, unaligned accesses will generate an exception. `ccr` is the current value
    /// of the Configuration and Control Register.
    pub fn unaligned(&mut self, ccr: u32, forbid: bool) -> (op: RegisterOp)
        ensures
            op == (RegisterOp::Write { address: Self::CCR, value: with_bit(ccr, 3, forbid) }),
    {
        RegisterOp::Write { address: Self::CCR, value: Self::set(ccr, 3, forbid) }
    }

    /// Controls the behaviour of the Secure Fault for User Setting Pending exception.
    /// If set, unprivileged code attempting to set a pending bit will generate an exception.
    /// `ccr` is the current value of the Configuration and Control Register.
    pub fn userpend(&mut self, ccr: u32, forbid: bool) -> (op: RegisterOp)
        ensures
            op == (RegisterOp::Write { address: Self::CCR, value: with_bit(ccr, 1, forbid) }),
    {
        RegisterOp::Write { address: Self::CCR, value: Self::set(ccr, 1, forbid) }
    }

    /// Controls the sleep behaviour of the system.
    /// If set, the system will enter into deep sleep mode instead of normal sleep mode.
    /// `scr` is the current value of the System Control Register.
    pub fn deepsleep(&mut self, scr: u32, enabled: bool) -> (op: RegisterOp)
        ensures
            op == (RegisterOp::Write { address: Self::SCR, value: with_bit(scr, 2, enabled) }),
    {
        RegisterOp::Write { address: Self::SCR, value: Self::set(scr, 2, enabled) }
    }

    /// Relocates the Vector Table address.
    pub fn vtrelocate(&mut self, address: u32) -> (op: RegisterOp)
        ensures
            op == (RegisterOp::Write { address: Self::VTOR, value: address }),
    {
        RegisterOp::Write { address: Self::VTOR, value: address }
    }
}

} // verus!
