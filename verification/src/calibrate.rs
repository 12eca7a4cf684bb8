//! Crystal calibration arithmetic: the error of a gated tick count against a
//! nominal frequency, and the dial correction that cancels it. All results are
//! in parts per billion (ppb).

use vstd::prelude::*;
use crate::frequency::Frequency;

verus! {

/// Largest error, in ppb, that a real crystal can show. Anything larger is a
/// missed or doubled reference tick rather than a measurement.
pub const MAX_PLAUSIBLE_PPB: i64 = 1_000_000;

/// One billion: ppb per unit.
pub const PPB: i64 = 1_000_000_000;

/// `x` limited to the range of `i64`.
pub open spec fn clamp_i64(x: int) -> int {
    if x < i64::MIN {
        i64::MIN as int
    } else if x > i64::MAX {
        i64::MAX as int
    } else {
        x
    }
}

/// `n / d` rounded toward zero, for `d > 0`.
pub open spec fn div_trunc(n: int, d: int) -> int {
    if n >= 0 {
        n / d
    } else {
        -((-n) / d)
    }
}

/// Error in ppb of `ticks` counted over `gate_s` seconds against a nominal
/// frequency of `nominal_uhz` microhertz, rounded toward zero and limited to
/// the range of `i64`.
pub open spec fn spec_error_ppb(ticks: int, nominal_uhz: int, gate_s: int) -> int {
    clamp_i64(div_trunc((ticks * 1_000_000 - nominal_uhz * gate_s) * 1_000_000_000, nominal_uhz * gate_s))
}

/// Whether an error in ppb can be a real crystal error.
pub open spec fn spec_plausible(ppb: int) -> bool {
    -MAX_PLAUSIBLE_PPB <= ppb <= MAX_PLAUSIBLE_PPB
}

/// The dial, in microhertz, that makes an output running `ppb` fast produce
/// `f_uhz`: `f * 1e9 / (1e9 + ppb)`, rounded down and limited to `u64`. An
/// error of `-1e9` or below (an output that would not run at all) saturates.
pub open spec fn spec_correct(f_uhz: int, ppb: int) -> int {
    if 1_000_000_000 + ppb <= 0 {
        u64::MAX as int
    } else {
        let q = f_uhz * 1_000_000_000 / (1_000_000_000 + ppb);
        if q > u64::MAX { u64::MAX as int } else { q }
    }
}

/// The error in ppb that `spec_correct` cancels when it turns `nominal` into
/// `dial`: `(nominal - dial) * 1e9 / dial`, rounded toward zero and limited to
/// `i64`. A zero dial saturates.
pub open spec fn spec_correction_ppb(dial_uhz: int, nominal_uhz: int) -> int {
    if dial_uhz == 0 {
        i64::MAX as int
    } else {
        clamp_i64(div_trunc((nominal_uhz - dial_uhz) * 1_000_000_000, dial_uhz))
    }
}

/// `correction_ppb` undoes `correct`: correcting a dial of `nominal_uhz` for a
/// plausible error of `ppb` and then asking what error the new dial cancels
/// gives back `ppb`, or, for a negative error that the rounding of the dial
/// left a fraction over, `ppb + 1`. This holds while the corrected dial is at
/// least `1e9 + ppb` microhertz (so the rounding costs less than one ppb) and
/// does not saturate.
pub proof fn lemma_correction_undoes_correct(nominal_uhz: int, ppb: int)
    requires
        spec_plausible(ppb),
        (1_000_000_000 + ppb) * (1_000_000_000 + ppb) <= nominal_uhz * 1_000_000_000,
        2 * nominal_uhz <= u64::MAX,
    ensures
        ppb <= spec_correction_ppb(spec_correct(nominal_uhz, ppb), nominal_uhz) <= ppb + 1,
        ppb >= 0 ==> spec_correction_ppb(spec_correct(nominal_uhz, ppb), nominal_uhz) == ppb,
{
    let den: int = 1_000_000_000 + ppb;
    let x: int = nominal_uhz * 1_000_000_000;
    let d: int = x / den;
    let r: int = x % den;
    assert(den >= 999_000_000);
    assert(nominal_uhz >= 0) by (nonlinear_arith)
        requires den * den <= x, x == nominal_uhz * 1_000_000_000, den >= 1;
    assert(x == d * den + r && 0 <= r < den) by (nonlinear_arith)
        requires den > 0, d == x / den, r == x % den;
    assert(d >= den) by (nonlinear_arith)
        requires x == d * den + r, 0 <= r < den, den * den <= x, den > 0;
    assert(d <= 2 * nominal_uhz) by (nonlinear_arith)
        requires x == d * den + r, r >= 0, den >= 999_000_000, x == nominal_uhz * 1_000_000_000, d >= 0;
    assert(spec_correct(nominal_uhz, ppb) == d);
    let y: int = (nominal_uhz - d) * 1_000_000_000;
    assert(y == d * ppb + r) by (nonlinear_arith)
        requires x == d * den + r, den == 1_000_000_000 + ppb, x == nominal_uhz * 1_000_000_000,
            y == (nominal_uhz - d) * 1_000_000_000;
    if y >= 0 {
        assert(y / d == ppb) by (nonlinear_arith)
            requires y == d * ppb + r, 0 <= r < den, den <= d;
        assert(div_trunc(y, d) == ppb);
    } else {
        assert(ppb < 0) by (nonlinear_arith)
            requires y == d * ppb + r, r >= 0, y < 0, d > 0;
        if r == 0 {
            assert((-y) / d == -ppb) by (nonlinear_arith)
                requires y == d * ppb + r, r == 0, d > 0;
        } else {
            assert((-y) / d == -ppb - 1) by (nonlinear_arith)
                requires y == d * ppb + r, 0 < r < den, den <= d;
        }
    }
}

/// Error in ppb of `ticks` counted over a gate of `gate_s` seconds, against
/// `nominal`. Positive when the counted clock runs fast.
pub fn error_ppb(ticks: u32, nominal: Frequency, gate_s: u32) -> (r: i64)
    requires
        nominal@ > 0,
        gate_s > 0,
    ensures
        r == spec_error_ppb(ticks as int, nominal@ as int, gate_s as int),
{
    let nom = nominal.as_microhz();
    proof {
        assert((nom as int) * (gate_s as int) <= (u64::MAX as int) * (u32::MAX as int)) by (nonlinear_arith)
            requires nom <= u64::MAX, gate_s <= u32::MAX, nom >= 0, gate_s >= 0;
        assert((nom as int) * (gate_s as int) >= 1) by (nonlinear_arith)
            requires nom >= 1, gate_s >= 1;
    }
    let expected: u128 = nom as u128 * gate_s as u128;
    let measured: u128 = ticks as u128 * 1_000_000u128;
    if measured >= expected {
        let diff: u128 = measured - expected;
        proof {
            assert(diff * 1_000_000_000 <= (u64::MAX as int) * (u32::MAX as int) * 1_000_000_000) by (nonlinear_arith)
                requires diff <= (ticks as int) * 1_000_000, ticks <= u32::MAX;
        }
        let q: u128 = diff * 1_000_000_000u128 / expected;
        if q > i64::MAX as u128 {
            i64::MAX
        } else {
            q as i64
        }
    } else {
        let diff: u128 = expected - measured;
        proof {
            assert(diff * 1_000_000_000 <= (u64::MAX as int) * (u32::MAX as int) * 1_000_000_000) by (nonlinear_arith)
                requires diff <= expected, expected <= (u64::MAX as int) * (u32::MAX as int);
            assert(diff * 1_000_000_000 / (expected as int) <= 1_000_000_000) by (nonlinear_arith)
                requires diff <= expected, expected >= 1;
        }
        let q: u128 = diff * 1_000_000_000u128 / expected;
        -(q as i64)
    }
}

/// Whether an error in ppb can be a real crystal error rather than a missed or
/// doubled reference tick.
pub fn plausible(ppb: i64) -> (r: bool)
    ensures
        r == spec_plausible(ppb as int),
{
    -MAX_PLAUSIBLE_PPB <= ppb && ppb <= MAX_PLAUSIBLE_PPB
}

/// The dial that makes an output whose reference runs `ppb` fast produce `f`.
pub fn correct(f: Frequency, ppb: i64) -> (r: Frequency)
    ensures
        r@ == spec_correct(f@ as int, ppb as int),
{
    if ppb <= -PPB {
        return Frequency::max_value();
    }
    let den: u128 = (PPB as i128 + ppb as i128) as u128;
    let fu = f.as_microhz();
    proof {
        assert((fu as int) * 1_000_000_000 <= (u64::MAX as int) * 1_000_000_000) by (nonlinear_arith)
            requires fu <= u64::MAX;
    }
    let q: u128 = fu as u128 * 1_000_000_000u128 / den;
    if q > u64::MAX as u128 {
        Frequency::max_value()
    } else {
        Frequency::from_microhz(q as u64)
    }
}

/// The whole error in ppb that a dial of `dial` cancels against `nominal`:
/// the inverse of [`correct`].
pub fn correction_ppb(dial: Frequency, nominal: Frequency) -> (r: i64)
    ensures
        r == spec_correction_ppb(dial@ as int, nominal@ as int),
{
    let d = dial.as_microhz();
    let n = nominal.as_microhz();
    if d == 0 {
        return i64::MAX;
    }
    if n >= d {
        let diff: u128 = (n - d) as u128;
        proof {
            assert(diff * 1_000_000_000 <= (u64::MAX as int) * 1_000_000_000) by (nonlinear_arith)
                requires diff <= u64::MAX;
        }
        let q: u128 = diff * 1_000_000_000u128 / d as u128;
        if q > i64::MAX as u128 {
            i64::MAX
        } else {
            q as i64
        }
    } else {
        let diff: u128 = (d - n) as u128;
        proof {
            assert(diff * 1_000_000_000 <= (u64::MAX as int) * 1_000_000_000) by (nonlinear_arith)
                requires diff <= u64::MAX;
            assert(diff * 1_000_000_000 / (d as int) <= 1_000_000_000) by (nonlinear_arith)
                requires diff <= d, d >= 1;
        }
        let q: u128 = diff * 1_000_000_000u128 / d as u128;
        -(q as i64)
    }
}

} // verus!
