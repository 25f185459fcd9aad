//! Access to the External Coprocessor control registers.

use vstd::prelude::*;

use crate::register::RegisterOp;

verus! {

/// The Coprocessor Access Control Register value `cpacr` with the two bit field of
/// coprocessor `cp` set to full access (bit 1 for thread mode access, bit 0 for privileged
/// access) when enabled, or cleared.
pub open spec fn cpacr_spec(cpacr: u32, cp: u32, enable: bool, thread: bool) -> u32 {
    let cleared = cpacr & !(3u32 << (cp * 2) as u32);
    if enable {
        cleared | ((((if thread { 1u32 } else { 0u32 }) << 1u32) | 1u32) << (cp * 2) as u32)
    } else {
        cleared
    }
}

/// The Non-Secure Access Control Register value `nsacr` with the bit of coprocessor `cp`
/// set to `ns` when enabled, or cleared.
pub open spec fn nsacr_spec(nsacr: u32, cp: u32, enable: bool, ns: bool) -> u32 {
    let cleared = nsacr & !(1u32 << cp);
    if enable {
        cleared | ((if ns { 1u32 } else { 0u32 }) << cp)
    } else {
        cleared
    }
}

/// Access to the External Coprocessor control registers.
pub struct CoprocessorControl;

impl CoprocessorControl {
    /// Address of the Coprocessor Access Control Register (CPACR).
    pub const CPACR: usize = 0xE000ED88;

    /// Address of the Non-Secure Access Control Register (NSACR).
    pub const NSACR: usize = 0xE000ED8C;

    /// Takes control over the coprocessor control registers.
    pub fn instance() -> Self {
        CoprocessorControl
    }

    /// Configures access to the given coprocessor `cp`, given the current values of the
    /// CPACR and NSACR registers. Access from thread mode and non-secure code must be
    /// explicitly enabled by setting the corresponding argument as `true`.
    /// The fields of the other coprocessors are kept.
    pub fn configure(
        &mut self,
        cpacr: u32,
        nsacr: u32,
        cp: u8,
        enable: bool,
        thread: bool,
        ns: bool,
    ) -> (ops: Vec<RegisterOp>)
        requires
            cp < 16,
        ensures
            ops@ == seq![
                RegisterOp::Write {
                    address: Self::CPACR,
                    value: cpacr_spec(cpacr, cp as u32, enable, thread),
                },
                RegisterOp::Write { address: Self::NSACR, value: nsacr_spec(nsacr, cp as u32, enable, ns) },
            ] + if enable { seq![RegisterOp::Barrier] } else { Seq::<RegisterOp>::empty() },
    {
        let shift = (cp * 2) as u32;
        let bit = cp as u32;
        // Erase the previous values.
        let mut cpacr = cpacr & !(0b11u32 << shift);
        let mut nsacr = nsacr & !(1u32 << bit);
        let mut ops: Vec<RegisterOp> = Vec::new();
        // If the coprocessor is not enabled return early.
        if !enable {
            ops.push(RegisterOp::Write { address: Self::CPACR, value: cpacr });
            ops.push(RegisterOp::Write { address: Self::NSACR, value: nsacr });
            return ops;
        }
        // Set the coprocessor configuration.
        let t: u32 = if thread { 1 } else { 0 };
        let n: u32 = if ns { 1 } else { 0 };
        cpacr = cpacr | (((t << 1) | 1) << shift);
        nsacr = nsacr | (n << bit);
        // Write back the registers.
        ops.push(RegisterOp::Write { address: Self::CPACR, value: cpacr });
        ops.push(RegisterOp::Write { address: Self::NSACR, value: nsacr });
        ops.push(RegisterOp::Barrier);
        ops
    }
}

/// The access field of coprocessor `cp` reads back as configured (3 for thread and
/// privileged access, 1 for privileged access only, 0 when disabled) and the fields of the
/// other coprocessors keep their values; likewise for the non-secure access bit.
pub proof fn lemma_configure_fields(cpacr: u32, nsacr: u32, cp: u32, enable: bool, thread: bool, ns: bool)
    requires
        cp < 16,
    ensures
        (cpacr_spec(cpacr, cp, enable, thread) >> (cp * 2) as u32) & 3 == if enable {
            if thread { 3u32 } else { 1u32 }
        } else {
            0u32
        },
        forall|other: u32|
            other < 16 && other != cp ==> #[trigger] ((cpacr_spec(cpacr, cp, enable, thread) >> (other
                * 2) as u32) & 3) == (cpacr >> (other * 2) as u32) & 3,
        (nsacr_spec(nsacr, cp, enable, ns) >> cp) & 1 == if enable && ns { 1u32 } else { 0u32 },
        forall|other: u32|
            other < 32 && other != cp ==> #[trigger] ((nsacr_spec(nsacr, cp, enable, ns) >> other) & 1)
                == (nsacr >> other) & 1,
{
    let t: u32 = if thread { 1 } else { 0 };
    let n: u32 = if ns { 1 } else { 0 };
    let s = (cp * 2) as u32;
    let c0 = cpacr & !(3u32 << s);
    let c1 = c0 | (((t << 1u32) | 1u32) << s);
    let n0 = nsacr & !(1u32 << cp);
    let n1 = n0 | (n << cp);
    assert((c0 >> s) & 3 == 0 && (c1 >> s) & 3 == (t << 1u32) | 1u32) by (bit_vector)
        requires
            s <= 30,
            t < 2,
            c0 == cpacr & !(3u32 << s),
            c1 == c0 | (((t << 1u32) | 1u32) << s),
    ;
    assert(forall|o: u32|
        o < 32 && o != s && o + 1 != s && s + 1 != o ==> #[trigger] ((c1 >> o) & 3) == (cpacr >> o)
            & 3 && (c0 >> o) & 3 == (cpacr >> o) & 3) by (bit_vector)
        requires
            s <= 30,
            t < 2,
            c0 == cpacr & !(3u32 << s),
            c1 == c0 | (((t << 1u32) | 1u32) << s),
    ;
    assert((n0 >> cp) & 1 == 0 && (n1 >> cp) & 1 == n) by (bit_vector)
        requires
            cp < 32,
            n < 2,
            n0 == nsacr & !(1u32 << cp),
            n1 == n0 | (n << cp),
    ;
    assert(forall|o: u32|
        o < 32 && o != cp ==> #[trigger] ((n1 >> o) & 1) == (nsacr >> o) & 1 && (n0 >> o) & 1 == (
        nsacr >> o) & 1) by (bit_vector)
        requires
            cp < 32,
            n < 2,
            n0 == nsacr & !(1u32 << cp),
            n1 == n0 | (n << cp),
    ;
    assert((t << 1u32) | 1u32 == if thread { 3u32 } else { 1u32 }) by (bit_vector)
        requires
            t == if thread { 1u32 } else { 0u32 },
    ;
    assert forall|other: u32| other < 16 && other != cp implies #[trigger] ((cpacr_spec(
        cpacr,
        cp,
        enable,
        thread,
    ) >> (other * 2) as u32) & 3) == (cpacr >> (other * 2) as u32) & 3 by {
        let o = (other * 2) as u32;
        assert(o != s && o + 1 != s && s + 1 != o);
        assert((c1 >> o) & 3 == (cpacr >> o) & 3);
        assert((c0 >> o) & 3 == (cpacr >> o) & 3);
        if enable {
            assert(cpacr_spec(cpacr, cp, enable, thread) == c1);
        } else {
            assert(cpacr_spec(cpacr, cp, enable, thread) == c0);
        }
    }
    assert forall|other: u32| other < 32 && other != cp implies #[trigger] ((nsacr_spec(
        nsacr,
        cp,
        enable,
        ns,
    ) >> other) & 1) == (nsacr >> other) & 1 by {
        assert((n1 >> other) & 1 == (nsacr >> other) & 1);
        if enable {
            assert(nsacr_spec(nsacr, cp, enable, ns) == n1);
        } else {
            assert(nsacr_spec(nsacr, cp, enable, ns) == n0);
        }
    }
}

} // verus!
