//! PLL clock control.

use vstd::prelude::*;

use super::{Clock, ClockList, ClockTable, ClockTrait};
use crate::register::{register_after, RegisterOp};

verus! {

/// Control over the PLL number `N`: 0 drives the system clock, 1 the USB clock.
pub struct PLL<const N: usize>;

/// Selection of the power mode of a PLL.
#[derive(Clone, Copy, Debug, PartialEq, Eq, Structural)]
pub enum PLLPowerMode {
    /// Reduces the power consumption at the expense of more clock jitter.
    LowPower,
    /// Reduces the clock jitter at the expense of more power consumption.
    LowJitter,
}

/// Configuration of one of the PLLs of the system.
#[derive(Clone, Copy, Debug, PartialEq, Eq, Structural)]
pub struct PLLConfig {
    /// Selects which power mode to use for the PLL.
    pub mode: PLLPowerMode,
    /// Selects the target frequency of the PLL, in the unit of the crystal frequency given to
    /// the search (`Clocks::apply` gives the crystal frequency in Hz). The search divides the
    /// crystal down to a reference below 75 of that unit and keeps the feedback divider within
    /// `16..=320`, so only outputs below 24000 of that unit can be reached.
    pub target: u32,
}

/// The post divider pair listed for the ratio `i` (`0 <= i < 50`).
pub open spec fn postdiv_at(i: int) -> (u8, u8) {
    if i <= 1 { (1, 1) }
    else if i == 2 { (2, 1) }
    else if i == 3 { (3, 1) }
    else if i == 4 { (4, 1) }
    else if i == 5 { (5, 1) }
    else if i == 6 { (6, 1) }
    else if i == 7 { (7, 1) }
    else if i == 8 { (4, 2) }
    else if i == 9 { (3, 3) }
    else if i == 10 { (5, 2) }
    else if i <= 12 { (6, 2) }
    else if i <= 14 { (7, 2) }
    else if i == 15 { (5, 3) }
    else if i == 16 { (4, 4) }
    else if i <= 18 { (6, 3) }
    else if i <= 20 { (5, 4) }
    else if i == 21 { (7, 3) }
    else if i <= 24 { (6, 4) }
    else if i == 25 { (5, 5) }
    else if i <= 28 { (7, 4) }
    else if i <= 30 { (6, 5) }
    else if i <= 35 { (7, 5) }
    else if i == 36 { (6, 6) }
    else if i <= 42 { (7, 6) }
    else { (7, 7) }
}

/// Number of entries in the post divider table.
pub const POSTDIV_COUNT: usize = 50;

/// The `i`-th post divider pair visited by the search for the given power mode:
/// the table in ascending order for low power, in descending order for low jitter.
pub open spec fn scan_pair(mode: PLLPowerMode, i: int) -> (u8, u8) {
    match mode {
        PLLPowerMode::LowPower => postdiv_at(i),
        PLLPowerMode::LowJitter => postdiv_at(49 - i),
    }
}

/// The reference divider chosen for a crystal of frequency `xosc`.
pub open spec fn refdiv_spec(xosc: u32) -> int {
    (xosc as int) / 75 + 1
}

/// Feedback divider and residue reached with the post dividers `pair`, or `None` when the
/// feedback divider falls outside `16..=320`.
pub open spec fn propagate_spec(freq: u32, xosc: u32, pair: (u8, u8)) -> Option<(u32, u32)> {
    let refdiv = refdiv_spec(xosc);
    let ratio = pair.0 * pair.1;
    let fbdiv = freq * ratio * refdiv / (xosc as int);
    if fbdiv < 16 || fbdiv > 320 {
        None
    } else {
        let output = ((xosc as int) / refdiv) * fbdiv / ratio;
        let residue = if output > freq { output - freq } else { freq - output };
        Some((fbdiv as u32, residue as u32))
    }
}

/// The pair visited at step `i` is usable for the target frequency.
pub open spec fn usable(freq: u32, xosc: u32, mode: PLLPowerMode, i: int) -> bool {
    propagate_spec(freq, xosc, scan_pair(mode, i)) is Some
}

/// Residue of the pair visited at step `i`.
pub open spec fn residue_at(freq: u32, xosc: u32, mode: PLLPowerMode, i: int) -> u32 {
    propagate_spec(freq, xosc, scan_pair(mode, i))->Some_0.1
}

/// Step `k` holds the smallest residue of all usable pairs, and every usable pair visited
/// before it has a strictly larger residue.
pub open spec fn first_best(freq: u32, xosc: u32, mode: PLLPowerMode, k: int) -> bool {
    &&& 0 <= k < 50
    &&& usable(freq, xosc, mode, k)
    &&& forall|j: int|
        0 <= j < 50 && usable(freq, xosc, mode, j) ==> residue_at(freq, xosc, mode, k)
            <= #[trigger] residue_at(freq, xosc, mode, j)
    &&& forall|j: int|
        0 <= j < k && usable(freq, xosc, mode, j) ==> residue_at(freq, xosc, mode, k)
            < #[trigger] residue_at(freq, xosc, mode, j)
}

/// The search divides by the crystal frequency, which must not be zero.
pub open spec fn search_fits(freq: u32, xosc: u32) -> bool {
    xosc > 0
}

/// The step at which the search settles, when some step is usable.
pub open spec fn best_step(freq: u32, xosc: u32, mode: PLLPowerMode) -> int {
    choose|k: int| first_best(freq, xosc, mode, k)
}

/// The configuration found for `config` with a crystal of frequency `xosc`: feedback divider,
/// reference divider and post dividers of the first pair with the smallest residue, or
/// `None` when no pair of the table is usable.
pub open spec fn configuration_spec(config: PLLConfig, xosc: u32) -> Option<(u32, u32, u8, u8)> {
    if exists|k: int| first_best(config.target, xosc, config.mode, k) {
        let pair = scan_pair(config.mode, best_step(config.target, xosc, config.mode));
        Some(
            (
                propagate_spec(config.target, xosc, pair)->Some_0.0,
                refdiv_spec(xosc) as u32,
                pair.0,
                pair.1,
            ),
        )
    } else {
        None
    }
}

/// At most one step satisfies `first_best`: the search result is determined by its inputs.
pub proof fn lemma_first_best_unique(freq: u32, xosc: u32, mode: PLLPowerMode, k1: int, k2: int)
    requires
        first_best(freq, xosc, mode, k1),
        first_best(freq, xosc, mode, k2),
    ensures
        k1 == k2,
{
    if k1 < k2 {
        assert(residue_at(freq, xosc, mode, k2) < residue_at(freq, xosc, mode, k1));
        assert(residue_at(freq, xosc, mode, k1) <= residue_at(freq, xosc, mode, k2));
    } else if k2 < k1 {
        assert(residue_at(freq, xosc, mode, k1) < residue_at(freq, xosc, mode, k2));
        assert(residue_at(freq, xosc, mode, k2) <= residue_at(freq, xosc, mode, k1));
    }
}

/// The configuration found is a usable one: its feedback divider lies in `16..=320`, its
/// reference divider is `xosc / 75 + 1`, its post dividers come from the table, and no
/// usable pair of the table reaches the target with a smaller residue.
pub proof fn lemma_configuration_optimal(config: PLLConfig, xosc: u32, j: int)
    requires
        configuration_spec(config, xosc) is Some,
        0 <= j < 50,
        usable(config.target, xosc, config.mode, j),
    ensures
        ({
            let (fbdiv, refdiv, diva, divb) = configuration_spec(config, xosc)->Some_0;
            let k = best_step(config.target, xosc, config.mode);
            &&& 16 <= fbdiv <= 320
            &&& refdiv == refdiv_spec(xosc)
            &&& 0 <= k < 50
            &&& scan_pair(config.mode, k) == (diva, divb)
            &&& propagate_spec(config.target, xosc, (diva, divb))->Some_0.1
                <= residue_at(config.target, xosc, config.mode, j)
        }),
{
    let k = best_step(config.target, xosc, config.mode);
    assert(first_best(config.target, xosc, config.mode, k));
    assert(residue_at(config.target, xosc, config.mode, k) <= residue_at(
        config.target,
        xosc,
        config.mode,
        j,
    ));
}

/// Both dividers of every pair visited by the search lie in `1..=7`.
pub proof fn lemma_scan_pair_bounds(mode: PLLPowerMode, i: int)
    requires
        0 <= i < 50,
    ensures
        1 <= scan_pair(mode, i).0 <= 7,
        1 <= scan_pair(mode, i).1 <= 7,
{
    match mode {
        PLLPowerMode::LowPower => lemma_postdiv_bounds(i),
        PLLPowerMode::LowJitter => lemma_postdiv_bounds(49 - i),
    }
}

/// The frequency reached by a PLL programmed with the given dividers.
pub open spec fn output_spec(xosc: u32, fbdiv: u32, diva: u8, divb: u8) -> int {
    ((xosc as int) / refdiv_spec(xosc)) * fbdiv / (diva * divb)
}

/// The frequency reached with the configuration found differs from the target by exactly
/// the residue of the chosen pair, the smallest residue of the table.
pub proof fn lemma_output_residue(config: PLLConfig, xosc: u32)
    requires
        xosc > 0,
        configuration_spec(config, xosc) is Some,
    ensures
        ({
            let (fbdiv, refdiv, diva, divb) = configuration_spec(config, xosc)->Some_0;
            let residue = residue_at(config.target, xosc, config.mode, best_step(config.target, xosc, config.mode));
            let output = output_spec(xosc, fbdiv, diva, divb);
            &&& 0 <= output <= 24000
            &&& (output == config.target + residue || output == config.target - residue)
        }),
{
    let k = best_step(config.target, xosc, config.mode);
    assert(first_best(config.target, xosc, config.mode, k));
    let pair = scan_pair(config.mode, k);
    lemma_scan_pair_bounds(config.mode, k);
    let ratio = pair.0 * pair.1;
    assert(1 <= ratio <= 49) by (nonlinear_arith)
        requires
            1 <= pair.0 <= 7,
            1 <= pair.1 <= 7,
            ratio == pair.0 * pair.1,
    ;
    let fbdiv = config.target * ratio * refdiv_spec(xosc) / (xosc as int);
    assert(16 <= fbdiv <= 320);
    lemma_output_bound(xosc, fbdiv, ratio);
}

/// Returns `true` when the search can be run with a crystal of `xosc`: it is not zero.
pub fn search_fits_exec(freq: u32, xosc: u32) -> (r: bool)
    ensures
        r == search_fits(freq, xosc),
{
    xosc > 0
}

/// Every post divider pair of the table has both dividers in `1..=7`.
pub proof fn lemma_postdiv_bounds(i: int)
    requires
        0 <= i < 50,
    ensures
        1 <= postdiv_at(i).0 <= 7,
        1 <= postdiv_at(i).1 <= 7,
        postdiv_at(i).1 <= postdiv_at(i).0,
{
}

/// Returns the post divider pair listed for the ratio `i`.
fn postdiv(i: usize) -> (p: (u8, u8))
    requires
        i < 50,
    ensures
        p == postdiv_at(i as int),
{
    let table: [(u8, u8); 50] = [
        (1, 1), (1, 1), (2, 1), (3, 1), (4, 1),
        (5, 1), (6, 1), (7, 1), (4, 2), (3, 3),
        (5, 2), (6, 2), (6, 2), (7, 2), (7, 2),
        (5, 3), (4, 4), (6, 3), (6, 3), (5, 4),
        (5, 4), (7, 3), (6, 4), (6, 4), (6, 4),
        (5, 5), (7, 4), (7, 4), (7, 4), (6, 5),
        (6, 5), (7, 5), (7, 5), (7, 5), (7, 5),
        (7, 5), (6, 6), (7, 6), (7, 6), (7, 6),
        (7, 6), (7, 6), (7, 6), (7, 7), (7, 7),
        (7, 7), (7, 7), (7, 7), (7, 7), (7, 7),
    ];
    table[i]
}

proof fn lemma_output_bound(xosc: u32, fbdiv: int, ratio: int)
    requires
        xosc > 0,
        0 <= fbdiv <= 320,
        1 <= ratio,
    ensures
        ((xosc as int) / refdiv_spec(xosc)) < 75,
        0 <= ((xosc as int) / refdiv_spec(xosc)) * fbdiv <= 24000,
        0 <= ((xosc as int) / refdiv_spec(xosc)) * fbdiv / ratio <= 24000,
{
    let r = refdiv_spec(xosc);
    let q = (xosc as int) / r;
    assert(q < 75) by (nonlinear_arith)
        requires
            r == (xosc as int) / 75 + 1,
            q == (xosc as int) / r,
            xosc > 0,
    {
        assert(xosc < 75 * r);
        assert(q * r <= xosc);
    }
    assert(0 <= q * fbdiv <= 24000) by (nonlinear_arith)
        requires
            0 <= q < 75,
            0 <= fbdiv <= 320,
    ;
    assert(0 <= q * fbdiv / ratio <= q * fbdiv) by (nonlinear_arith)
        requires
            0 <= q * fbdiv,
            1 <= ratio,
    ;
}

/// Evaluates one post divider pair: the feedback divider it needs and the distance between
/// the frequency it reaches and the requested one. The VCO frequency is computed in 64 bits.
fn propagate(freq: u32, diva: u8, divb: u8, refdiv: u32, xosc: u32) -> (r: Option<(u32, u32)>)
    requires
        xosc > 0,
        refdiv == refdiv_spec(xosc),
        1 <= diva <= 7,
        1 <= divb <= 7,
    ensures
        r == propagate_spec(freq, xosc, (diva, divb)),
        r matches Some((_, res)) ==> res < 24100,
{
    let ghost ratio = diva * divb;
    proof {
        assert(1 <= ratio <= 49) by (nonlinear_arith)
            requires
                1 <= diva <= 7,
                1 <= divb <= 7,
                ratio == diva * divb,
        ;
        assert(refdiv <= 57266231) by (nonlinear_arith)
            requires
                refdiv == (xosc as int) / 75 + 1,
        ;
        assert(freq * diva * divb * refdiv <= 0xFFFF_FFFFu64 * 49 * 57266231) by (nonlinear_arith)
            requires
                freq <= 0xFFFF_FFFF,
                1 <= diva <= 7,
                1 <= divb <= 7,
                diva * divb <= 49,
                refdiv <= 57266231,
        ;
        assert(freq * diva <= freq * diva * divb * refdiv) by (nonlinear_arith)
            requires
                1 <= divb,
                1 <= refdiv,
        ;
        assert(freq * diva * divb <= freq * diva * divb * refdiv) by (nonlinear_arith)
            requires
                1 <= refdiv,
        ;
        assert(freq * diva * divb * refdiv == freq * (diva * divb) * refdiv) by (nonlinear_arith);
    }
    let vco = (freq as u64) * (diva as u64) * (divb as u64);
    let wide = vco * (refdiv as u64) / (xosc as u64);
    if (wide < 16) || (wide > 320) {
        return None;
    }
    let fbdiv = wide as u32;
    proof {
        lemma_output_bound(xosc, fbdiv as int, ratio);
        // A usable pair bounds the requested frequency.
        assert(freq < 24100) by (nonlinear_arith)
            requires
                xosc > 0,
                refdiv == (xosc as int) / 75 + 1,
                1 <= ratio,
                wide == (freq * ratio * refdiv) / (xosc as int),
                wide <= 320,
        {
            assert(freq * ratio * refdiv < 321 * xosc);
            assert(xosc < 75 * refdiv);
            assert(freq * ratio * refdiv < 321 * 75 * refdiv);
            assert(freq * ratio < 321 * 75);
            assert(freq <= freq * ratio);
        }
    }
    let output = (xosc / refdiv) * fbdiv / ((diva * divb) as u32);
    let residue = if output > freq {
        output - freq
    } else {
        freq - output
    };
    Some((fbdiv, residue))
}

impl PLLConfig {
    /// Calculates the PLL configuration and returns the feedback divider, reference divider
    /// and the two post dividers.
    ///
    /// The post divider table is searched in ascending order for low power and descending
    /// order for low jitter; the first pair with the smallest residue wins.
    pub fn configuration(&self, xosc: u32) -> (r: Option<(u32, u32, u8, u8)>)
        requires
            search_fits(self.target, xosc),
        ensures
            r == configuration_spec(*self, xosc),
            r is None <==> forall|i: int|
                0 <= i < 50 ==> !#[trigger] usable(self.target, xosc, self.mode, i),
    {
        let refdiv = (xosc / 75) + 1;
        let mut best: Option<(u32, u8, u8)> = None;
        let mut residue: u32 = u32::MAX;
        let ghost mut k: int = 0;
        let mut i: usize = 0;
        while i < POSTDIV_COUNT
            invariant
                0 <= i <= 50,
                search_fits(self.target, xosc),
                refdiv == refdiv_spec(xosc),
                best is None ==> residue == u32::MAX && forall|j: int|
                    0 <= j < i ==> !#[trigger] usable(self.target, xosc, self.mode, j),
                best matches Some((fbdiv, diva, divb)) ==> {
                    &&& 0 <= k < i
                    &&& usable(self.target, xosc, self.mode, k)
                    &&& scan_pair(self.mode, k) == (diva, divb)
                    &&& propagate_spec(self.target, xosc, (diva, divb)) == Some((fbdiv, residue))
                    &&& forall|j: int|
                        0 <= j < i && usable(self.target, xosc, self.mode, j) ==> residue
                            <= #[trigger] residue_at(self.target, xosc, self.mode, j)
                    &&& forall|j: int|
                        0 <= j < k && usable(self.target, xosc, self.mode, j) ==> residue
                            < #[trigger] residue_at(self.target, xosc, self.mode, j)
                },
            decreases 50 - i,
        {
            let index = match self.mode {
                PLLPowerMode::LowJitter => 49 - i,
                PLLPowerMode::LowPower => i,
            };
            let (diva, divb) = postdiv(index);
            proof {
                lemma_postdiv_bounds(index as int);
            }
            let step = propagate(self.target, diva, divb, refdiv, xosc);
            if let Some((fbdiv, diff)) = step {
                if diff < residue {
                    best = Some((fbdiv, diva, divb));
                    residue = diff;
                    proof {
                        k = i as int;
                    }
                }
            }
            proof {
                assert(scan_pair(self.mode, i as int) == (diva, divb));
            }
            i = i + 1;
        }
        match best {
            Some((fbdiv, diva, divb)) => {
                proof {
                    assert(first_best(self.target, xosc, self.mode, k));
                    lemma_first_best_unique(
                        self.target,
                        xosc,
                        self.mode,
                        k,
                        best_step(self.target, xosc, self.mode),
                    );
                }
                Some((fbdiv, refdiv, diva, divb))
            },
            None => {
                proof {
                    if exists|k: int| first_best(self.target, xosc, self.mode, k) {
                        let k = choose|k: int| first_best(self.target, xosc, self.mode, k);
                        assert(usable(self.target, xosc, self.mode, k));
                    }
                }
                None
            },
        }
    }
}

impl<const N: usize> PLL<N> {
    /// Base address of the registers of this PLL.
    pub open spec fn base_spec() -> int {
        0x40050000 + 0x8000 * N
    }

    /// The register writes that program this PLL with the given dividers: reference
    /// divider, feedback divider, power up of the VCO, post dividers, power up of the post
    /// dividers.
    pub open spec fn program_spec(refdiv: u32, fbdiv: u32, diva: u8, divb: u8) -> Seq<RegisterOp> {
        let base = Self::base_spec() as usize;
        seq![
            RegisterOp::Write { address: base, value: refdiv },
            RegisterOp::Write { address: (base + 0x08) as usize, value: fbdiv },
            RegisterOp::Write { address: (base + 0x04) as usize, value: 0b001100 },
            RegisterOp::Write {
                address: (base + 0x0C) as usize,
                value: ((diva as u32) << 16) | ((divb as u32) << 12),
            },
            RegisterOp::Write { address: (base + 0x04) as usize, value: 0b000100 },
        ]
    }

    /// Returns the base address of the registers of this PLL.
    fn base() -> (r: usize)
        requires
            N <= 1,
        ensures
            r == Self::base_spec(),
    {
        0x40050000 + 0x8000 * N
    }

    /// The entry of the clock list that records the frequency of this PLL.
    pub open spec fn list_spec() -> ClockList {
        if N == 0 {
            ClockList::PLLSystem
        } else {
            ClockList::PLLUSB
        }
    }

    /// Returns the entry of the clock list that records the frequency of this PLL.
    pub fn list() -> (r: ClockList)
        ensures
            r == Self::list_spec(),
    {
        if N == 0 {
            ClockList::PLLSystem
        } else {
            ClockList::PLLUSB
        }
    }

    /// Programs the PLL for the given configuration from a crystal of frequency `xosc`,
    /// appending the register writes to `ops` and recording the reached frequency as this
    /// PLL's entry of the clock list.
    /// Returns the final achieved frequency or `None` if it cannot be reached.
    pub fn freeze(
        &mut self,
        xosc: u32,
        config: &PLLConfig,
        table: &mut ClockTable,
        ops: &mut Vec<RegisterOp>,
    ) -> (r: Option<u32>)
        requires
            N <= 1,
            search_fits(config.target, xosc),
        ensures
            match configuration_spec(*config, xosc) {
                None => {
                    &&& r is None
                    &&& final(ops)@ == old(ops)@
                    &&& final(table)@ == old(table)@
                },
                Some((fbdiv, refdiv, diva, divb)) => {
                    &&& r == Some(output_spec(xosc, fbdiv, diva, divb) as u32)
                    &&& final(ops)@ == old(ops)@ + Self::program_spec(refdiv, fbdiv, diva, divb)
                    &&& final(table)@ == old(table)@.update(
                        Self::list_spec().index_spec(),
                        output_spec(xosc, fbdiv, diva, divb) as u32,
                    )
                },
            },
    {
        let (fbdiv, refdiv, postdiv1, postdiv2) = match config.configuration(xosc) {
            Some(c) => c,
            None => return None,
        };
        proof {
            let k = best_step(config.target, xosc, config.mode);
            assert(first_best(config.target, xosc, config.mode, k));
            lemma_scan_pair_bounds(config.mode, k);
            assert(1 <= postdiv1 * postdiv2 <= 49) by (nonlinear_arith)
                requires
                    1 <= postdiv1 <= 7,
                    1 <= postdiv2 <= 7,
            ;
            lemma_output_bound(xosc, fbdiv as int, (postdiv1 * postdiv2) as int);
        }
        // Calculate the final output.
        let vco = (xosc / refdiv) * fbdiv;
        let output = vco / (postdiv1 as u32 * postdiv2 as u32);

        // Configure the PLL.
        let base = Self::base();
        ops.push(RegisterOp::Write { address: base, value: refdiv });
        ops.push(RegisterOp::Write { address: base + 0x08, value: fbdiv });
        ops.push(RegisterOp::Write { address: base + 0x04, value: 0b001100 });
        ops.push(
            RegisterOp::Write {
                address: base + 0x0C,
                value: ((postdiv1 as u32) << 16) | ((postdiv2 as u32) << 12),
            },
        );
        ops.push(RegisterOp::Write { address: base + 0x04, value: 0b000100 });

        // Store the current frequency to the global clock list.
        Self::list().write(table, output);
        Some(output)
    }
}

impl<const N: usize> ClockTrait for PLL<N> {
    open spec fn clock_spec() -> Clock {
        if N == 0 {
            Clock::PLLSystem
        } else {
            Clock::PLLUSB
        }
    }

    fn clockid() -> (c: Clock) {
        if N == 0 {
            Clock::PLLSystem
        } else {
            Clock::PLLUSB
        }
    }
}

/// What a frozen PLL records is what it reports: after `freeze` writes `out` to the PLL's
/// entry of the clock list, the clock's own entry (the one `ClockTrait::current` reads) holds
/// `out`, and every other entry of the list is unchanged.
pub proof fn lemma_frozen_pll_reports_output<const N: usize>(before: Seq<u32>, out: u32, other: ClockList)
    requires
        N <= 1,
        before.len() == 4,
        other != PLL::<N>::list_spec(),
    ensures
        ({
            let after = before.update(PLL::<N>::list_spec().index_spec(), out);
            &&& PLL::<N>::clock_spec().entry_spec() == Some(PLL::<N>::list_spec())
            &&& after[PLL::<N>::clock_spec().entry_spec()->Some_0.index_spec()] == out
            &&& after[other.index_spec()] == before[other.index_spec()]
        }),
{
}

/// Programming the PLL `N` leaves its registers as the PLL needs them, whatever they held:
/// the reference divider in CS, the feedback divider in FBDIV_INT, the post dividers in the
/// POSTDIV1 (bits 18:16) and POSTDIV2 (bits 14:12) fields of PRIM, and PWR with the PLL, the
/// VCO and the post dividers powered up (PD, VCOPD and POSTDIVPD, bits 0, 5 and 3, clear).
pub proof fn lemma_program_fields<const N: usize>(
    refdiv: u32,
    fbdiv: u32,
    diva: u8,
    divb: u8,
    cs: u32,
    fb: u32,
    pwr: u32,
    prim: u32,
)
    requires
        N <= 1,
        1 <= diva <= 7,
        1 <= divb <= 7,
    ensures
        ({
            let ops = PLL::<N>::program_spec(refdiv, fbdiv, diva, divb);
            let base = PLL::<N>::base_spec() as usize;
            let p = register_after(ops, (base + 0x0C) as usize, prim);
            let w = register_after(ops, (base + 0x04) as usize, pwr);
            &&& register_after(ops, base, cs) == refdiv
            &&& register_after(ops, (base + 0x08) as usize, fb) == fbdiv
            &&& (p >> 16) & 7 == diva
            &&& (p >> 12) & 7 == divb
            &&& w & 1 == 0
            &&& (w >> 3) & 1 == 0
            &&& (w >> 5) & 1 == 0
        }),
{
    reveal_with_fuel(register_after, 6);
    let ops = PLL::<N>::program_spec(refdiv, fbdiv, diva, divb);
    assert(ops.drop_last().drop_last().drop_last().drop_last().drop_last() =~= Seq::<RegisterOp>::empty());
    let a = diva as u32;
    let b = divb as u32;
    assert(forall|a: u32, b: u32| a < 8 && b < 8 ==> {
        &&& (#[trigger] ((a << 16) | (b << 12)) >> 16) & 7 == a
        &&& (((a << 16) | (b << 12)) >> 12) & 7 == b
        &&& 0b000100u32 & 1 == 0
        &&& (0b000100u32 >> 3) & 1 == 0
        &&& (0b000100u32 >> 5) & 1 == 0
    }) by (bit_vector);
    assert((((a << 16) | (b << 12)) >> 16) & 7 == a);
}

} // verus!
