//! Frequencies with microhertz resolution.

use vstd::prelude::*;

verus! {

/// Microhertz in one hertz.
pub const UHZ_PER_HZ: u64 = 1_000_000;

/// A frequency held in microhertz, so that fractional tones (the WSPR tone
/// spacing is 12000/8192 Hz) and sub-hertz dial corrections stay exact.
#[derive(Debug, Clone, Copy, PartialEq, Eq, Structural, PartialOrd, Ord, Hash)]
pub struct Frequency {
    uhz: u64,
}

impl View for Frequency {
    type V = nat;

    /// The frequency in microhertz.
    closed spec fn view(&self) -> nat {
        self.uhz as nat
    }
}

impl Frequency {
    /// The largest frequency this type holds.
    pub fn max_value() -> (f: Frequency)
        ensures
            f@ == u64::MAX,
    {
        Frequency { uhz: u64::MAX }
    }

    /// A frequency from whole hertz.
    pub fn from_hz(hz: u32) -> (f: Frequency)
        ensures
            f@ == hz * 1_000_000,
    {
        Frequency { uhz: hz as u64 * UHZ_PER_HZ }
    }

    /// A frequency from microhertz.
    pub fn from_microhz(uhz: u64) -> (f: Frequency)
        ensures
            f@ == uhz,
    {
        Frequency { uhz }
    }

    /// The frequency `num / den` hertz, rounded down to the microhertz.
    pub fn from_ratio(num: u64, den: u32) -> (f: Frequency)
        requires
            den > 0,
            num * 1_000_000 / (den as int) <= u64::MAX,
        ensures
            f@ == num * 1_000_000 / (den as int),
    {
        let q: u128 = num as u128 * 1_000_000u128 / den as u128;
        Frequency { uhz: q as u64 }
    }

    /// The frequency in microhertz.
    pub fn as_microhz(&self) -> (r: u64)
        ensures
            r == self@,
    {
        self.uhz
    }

    /// The frequency in whole hertz, rounded down.
    pub fn as_hz(&self) -> (r: u64)
        ensures
            r == self@ / 1_000_000,
    {
        self.uhz / UHZ_PER_HZ
    }

    /// The sum of two frequencies.
    pub fn plus(self, other: Frequency) -> (r: Frequency)
        requires
            self@ + other@ <= u64::MAX,
        ensures
            r@ == self@ + other@,
    {
        Frequency { uhz: self.uhz + other.uhz }
    }

    /// A frequency fits its 64-bit microhertz representation.
    pub proof fn lemma_view_bounded(f: Frequency)
        ensures
            f@ <= u64::MAX,
    {
    }

    /// Two frequencies are equal exactly when their microhertz are.
    pub proof fn lemma_view_injective(a: Frequency, b: Frequency)
        ensures
            a@ == b@ <==> a == b,
    {
    }
}

} // verus!
