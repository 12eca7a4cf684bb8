//! Arithmetic of one WSPR transmission: the slot, the symbol deadlines, the
//! tone frequencies, and the PPS-gated tick count.
//!
//! WSPR modulation is defined by 8192-sample symbols at a 12 kHz rate, giving
//! a symbol period of exactly 8192/12000 s (682.667 ms) and a tone spacing of
//! exactly 12000/8192 Hz (1.46484375 Hz).

use vstd::prelude::*;
use crate::calibrate::{self, spec_correct};
use crate::frequency::Frequency;
use crate::beacon::status::WSPR_SYMBOLS;

verus! {

/// Samples per WSPR symbol.
pub const WSPR_SYMBOL_SAMPLES: u64 = 8192;

/// WSPR sample rate in hertz.
pub const WSPR_SAMPLE_RATE_HZ: u64 = 12000;

/// Audio offset of slot 0 above the dial, in hertz.
pub const AUDIO_BASE_HZ: u32 = 1_400;

/// Audio offset between neighbouring slots, in hertz.
pub const SLOT_STEP_HZ: u32 = 20;

/// Number of slots in the 200 Hz sub-band.
pub const SLOTS: u32 = 10;

/// Multiplier of the multiplicative hash that spreads timer ticks over slots.
pub const SLOT_HASH: u64 = 2_654_435_761;

/// The slot picked for a transmission started at timer count `ticks`: the
/// top of `10 * h / 2^32`, `h` the 32-bit multiplicative hash of the count.
pub open spec fn slot_spec(ticks: u32) -> int {
    ((ticks * SLOT_HASH) % 0x1_0000_0000) * 10 / 0x1_0000_0000
}

/// Pseudo random slot selection from the current timer count.
pub fn slot_from_ticks(ticks: u32) -> (r: u32)
    ensures
        r == slot_spec(ticks),
        r < SLOTS,
{
    proof {
        assert(ticks * SLOT_HASH <= (u32::MAX as int) * SLOT_HASH) by (nonlinear_arith)
            requires ticks <= u32::MAX;
    }
    let h: u64 = ticks as u64 * SLOT_HASH % 0x1_0000_0000;
    let s: u64 = h * 10 / 0x1_0000_0000;
    s as u32
}

/// End of symbol `num`, in microseconds from the start of the frame:
/// `8192 * (num + 1) / 12000` seconds, rounded down. Each deadline is derived
/// from the frame start rather than summed, so rounding never accumulates.
pub open spec fn deadline_spec(num: int) -> int {
    WSPR_SYMBOL_SAMPLES * (num + 1) * 1_000_000 / (WSPR_SAMPLE_RATE_HZ as int)
}

/// End of symbol `num`, in microseconds from the start of the frame.
pub fn symbol_deadline_us(num: usize) -> (r: u64)
    requires
        num < WSPR_SYMBOLS,
    ensures
        r == deadline_spec(num as int),
{
    WSPR_SYMBOL_SAMPLES * (num as u64 + 1) * 1_000_000u64 / WSPR_SAMPLE_RATE_HZ
}

/// The uncorrected frequency of `symbol` in `slot` above `dial`, in
/// microhertz: dial, plus the slot's audio offset, plus the symbol's tone
/// (rounded down to the microhertz).
pub open spec fn tone_spec(dial_uhz: int, slot: int, symbol: int) -> int {
    dial_uhz + (AUDIO_BASE_HZ + SLOT_STEP_HZ * slot) * 1_000_000 + WSPR_SAMPLE_RATE_HZ * symbol * 1_000_000 / (WSPR_SYMBOL_SAMPLES as int)
}

/// The frequency to program for `symbol` (a 4-FSK tone, 0..=3 in a WSPR
/// message) in `slot` above `dial`, corrected for a crystal running `ppb`
/// fast.
pub fn symbol_frequency(dial: Frequency, slot: u32, symbol: u8, ppb: i64) -> (r: Frequency)
    requires
        slot < SLOTS,
        dial@ + 2_000 * 1_000_000 <= u64::MAX,
    ensures
        r@ == spec_correct(tone_spec(dial@ as int, slot as int, symbol as int), ppb as int),
{
    // WSPR audio offset is 1.4KHz + 20 * slot above the dial frequency.
    let offset = Frequency::from_hz(AUDIO_BASE_HZ + slot * SLOT_STEP_HZ);
    let tone = Frequency::from_ratio(WSPR_SAMPLE_RATE_HZ * symbol as u64, WSPR_SYMBOL_SAMPLES as u32);
    let freq = dial.plus(offset).plus(tone);
    calibrate::correct(freq, ppb)
}

/// The count of the 32-bit cascade of two 16-bit timers.
pub fn gate_ticks(high: u16, low: u16) -> (r: u32)
    ensures
        r == high * 65536 + low,
{
    high as u32 * 65536 + low as u32
}

/// What the PPS-gated counter does on a PPS edge. Every edge also closes the
/// transmit start gate, whatever the counter does: it is the edge a frame
/// waits for.
#[derive(Debug, Clone, Copy, PartialEq, Eq, Structural)]
pub enum PpsAction {
    /// The counter was stopped: start it, opening a one-second gate.
    OpenGate,
    /// The counter was running: stop and clear it. Its count is `ticks`,
    /// queued as a `CALIB` event when `queue` (calibration wants gates); a
    /// failure to queue it puts the beacon in the error state
    /// `PPSQueueFailure`.
    CloseGate { ticks: u32, queue: bool },
}

/// The counter's step on a PPS edge: gates alternate with idle seconds, so
/// a gate is measured every other second.
pub fn pps_step(running: bool, calib_gate: bool, high: u16, low: u16) -> (r: PpsAction)
    ensures
        r == (if running {
            PpsAction::CloseGate { ticks: (high * 65536 + low) as u32, queue: calib_gate }
        } else {
            PpsAction::OpenGate
        }),
{
    if running {
        PpsAction::CloseGate { ticks: gate_ticks(high, low), queue: calib_gate }
    } else {
        PpsAction::OpenGate
    }
}

/// A frame of 162 symbols lasts 110.592 s.
pub proof fn lemma_frame_length()
    ensures
        deadline_spec(WSPR_SYMBOLS - 1) == 110_592_000,
{
}

/// Symbol boundaries never drift: every symbol lasts 682666 or 682667
/// microseconds, because each deadline is rounded from the frame start.
pub proof fn lemma_symbol_period(num: int)
    requires
        0 <= num,
    ensures
        682_666 <= deadline_spec(num + 1) - deadline_spec(num) <= 682_667,
        deadline_spec(num) <= (num + 1) * 8192 * 1_000_000 / 12_000 < deadline_spec(num) + 1,
{
}

/// Every tone of every slot stays in the 200 Hz WSPR window above the dial:
/// `dial + 1400 Hz .. dial + 1600 Hz`.
pub proof fn lemma_tone_in_window(dial_uhz: int, slot: int, symbol: int)
    requires
        0 <= slot < SLOTS,
        0 <= symbol <= 3,
    ensures
        dial_uhz + 1_400 * 1_000_000 <= tone_spec(dial_uhz, slot, symbol) < dial_uhz + 1_600 * 1_000_000,
{
}

} // verus!
