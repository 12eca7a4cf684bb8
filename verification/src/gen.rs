//! Front panel of the two-channel Si5351 signal generator: a 16x2 character
//! LCD, a rotary encoder and its push button. What the panel shows and how
//! the controls move the channels is decided here; the owner of the pins
//! samples the encoder and button once per millisecond, writes the lines it
//! is handed and sends the generator plans it is asked for.

use vstd::prelude::*;
use vstd::string::StringSliceAdditionalSpecFns;
use crate::si5351::{ClockOutput, PLL};

verus! {

/// Characters per LCD line.
pub const LINE_WIDTH: usize = 16;

/// DDRAM address of the title line.
pub const TITLE_LINE_POS: u8 = 0x00;

/// DDRAM address of the status line.
pub const STATUS_LINE_POS: u8 = 0x40;

/// Lowest frequency the encoder dials, in hertz.
pub const FREQ_MIN_HZ: u32 = 4_000;

/// Highest frequency the encoder dials, in hertz.
pub const FREQ_MAX_HZ: u32 = 150_000_000;

/// Number of frequency steps.
pub const STEP_COUNT: usize = 9;

/// The frequency step of each step index, in hertz.
pub open spec fn step_value(idx: int) -> u32 {
    if idx == 0 {
        10
    } else if idx == 1 {
        100
    } else if idx == 2 {
        500
    } else if idx == 3 {
        1_000
    } else if idx == 4 {
        10_000
    } else if idx == 5 {
        100_000
    } else if idx == 6 {
        500_000
    } else if idx == 7 {
        1_000_000
    } else {
        10_000_000
    }
}

/// The frequency step of step index `idx`, in hertz.
pub fn step_values(idx: usize) -> (r: u32)
    requires
        idx < STEP_COUNT,
    ensures
        r == step_value(idx as int),
{
    let steps: [u32; STEP_COUNT] = [10, 100, 500, 1_000, 10_000, 100_000, 500_000, 1_000_000, 10_000_000];
    steps[idx]
}

/// The decimal digits of `v`, most significant first, no leading zeros.
pub open spec fn decimal(v: nat) -> Seq<u8>
    decreases v,
{
    if v < 10 {
        seq![(48 + v) as u8]
    } else {
        decimal(v / 10) + seq![(48 + v % 10) as u8]
    }
}

/// The last `n` decimal digits of `v`, zero padded.
pub open spec fn padded(v: nat, n: nat) -> Seq<u8>
    decreases n,
{
    if n == 0 {
        Seq::empty()
    } else {
        padded(v / 10, (n - 1) as nat) + seq![(48 + v % 10) as u8]
    }
}

/// A 32-bit number has at most ten digits.
pub proof fn lemma_decimal_len(v: nat, k: nat)
    requires
        v < pow10(k),
        k >= 1,
    ensures
        decimal(v).len() <= k,
        decimal(v).len() >= 1,
    decreases k,
{
    if v >= 10 {
        assert(k >= 2) by {
            if k < 2 {
                assert(pow10(1) == 10) by {
                    reveal_with_fuel(pow10, 2);
                }
            }
        }
        assert(v / 10 < pow10((k - 1) as nat)) by {
            assert(pow10(k) == 10 * pow10((k - 1) as nat));
        }
        lemma_decimal_len(v / 10, (k - 1) as nat);
    }
}

/// `10^k`.
pub open spec fn pow10(k: nat) -> nat
    decreases k,
{
    if k == 0 { 1 } else { 10 * pow10((k - 1) as nat) }
}

/// The digits of `value`, written to the end of `buffer`.
pub fn format_u32<'a>(value: u32, buffer: &'a mut [u8; 10]) -> (r: &'a [u8])
    ensures
        r@ == decimal(value as nat),
        r@ == final(buffer)@.subrange(10 - r@.len(), 10),
{
    proof {
        reveal_with_fuel(pow10, 11);
        lemma_decimal_len(value as nat, 10);
    }
    let ghost orig = value as nat;
    let mut value = value;
    let mut index: usize = buffer.len();
    index -= 1;
    buffer[index] = 48u8 + (value % 10) as u8;
    proof {
        if orig >= 10 {
            assert(decimal(orig) == decimal(orig / 10) + seq![(48 + orig % 10) as u8]);
        }
    }
    value /= 10;
    while value != 0
        invariant
            index <= 9,
            value > 0 ==> decimal(value as nat).len() <= index,
            value > 0 ==> decimal(orig) =~= decimal(value as nat) + buffer@.subrange(index as int, 10),
            value == 0 ==> decimal(orig) =~= buffer@.subrange(index as int, 10),
        decreases value,
    {
        proof {
            let v = value as nat;
            if v >= 10 {
                assert(decimal(v) == decimal(v / 10) + seq![(48 + v % 10) as u8]);
            }
        }
        index -= 1;
        buffer[index] = 48u8 + (value % 10) as u8;
        value /= 10;
    }
    &buffer[index..10]
}

/// How a frequency is shown: divisor to the displayed unit, number of
/// decimals, and unit letter (`M`, `K` or `H`). Three significant decimals
/// where they fit.
pub open spec fn freq_scale(freq: u32) -> (u32, nat, u8) {
    if freq >= 100_000_000 {
        (1_000_000, 1, 77u8)
    } else if freq >= 10_000_000 {
        (1_000_000, 2, 77u8)
    } else if freq >= 1_000_000 {
        (1_000_000, 3, 77u8)
    } else if freq >= 100_000 {
        (1_000, 1, 75u8)
    } else if freq >= 10_000 {
        (1_000, 2, 75u8)
    } else if freq >= 1_000 {
        (1_000, 3, 75u8)
    } else {
        (1, 0, 72u8)
    }
}

/// The frequency field, e.g. `7.000M`, `14.00M`, `100.0K`, `500H`: whole
/// units, then (unless plain hertz) a point and the leading decimals of
/// the remainder, truncated, then the unit letter.
pub open spec fn freq_field(freq: u32) -> Seq<u8> {
    let (d, n, suffix) = freq_scale(freq);
    let whole: int = freq as int / d as int;
    let frac: int = (freq as int % d as int) / (d as int / pow10(n) as int);
    decimal(whole as nat) + (if n > 0 { seq![46u8] + padded(frac as nat, n) } else { Seq::empty() }) + seq![suffix]
}

fn freq_scale_exec(freq: u32) -> (r: (u32, usize, u8))
    ensures
        (r.0, r.1 as nat, r.2) == freq_scale(freq),
        r.0 == 1_000_000 ==> freq / r.0 < 10_000,
        r.0 == 1_000 ==> freq / r.0 < 1_000,
        r.0 == 1 ==> freq / r.0 < 1_000,
        r.0 == 1_000_000 || r.0 == 1_000 || r.0 == 1,
        r.1 <= 3,
        r.0 == 1 <==> r.1 == 0,
{
    if freq >= 100_000_000 {
        (1_000_000, 1, 77u8)
    } else if freq >= 10_000_000 {
        (1_000_000, 2, 77u8)
    } else if freq >= 1_000_000 {
        (1_000_000, 3, 77u8)
    } else if freq >= 100_000 {
        (1_000, 1, 75u8)
    } else if freq >= 10_000 {
        (1_000, 2, 75u8)
    } else if freq >= 1_000 {
        (1_000, 3, 75u8)
    } else {
        (1, 0, 72u8)
    }
}

fn pow10_exec(n: usize) -> (r: u32)
    requires
        n <= 3,
    ensures
        r == pow10(n as nat),
        1 <= r <= 1000,
{
    proof {
        reveal_with_fuel(pow10, 4);
    }
    if n == 0 {
        1
    } else if n == 1 {
        10
    } else if n == 2 {
        100
    } else {
        1000
    }
}

fn fraction_digits(fraction: u32, n: usize) -> (r: [u8; 3])
    requires
        1 <= n <= 3,
    ensures
        r@.subrange(0, n as int) == padded(fraction as nat, n as nat),
{
    proof {
        reveal_with_fuel(padded, 4);
    }
    let mut digits: [u8; 3] = [48u8; 3];
    if n == 1 {
        digits[0] = 48u8 + (fraction % 10) as u8;
    } else if n == 2 {
        digits[0] = 48u8 + ((fraction / 10) % 10) as u8;
        digits[1] = 48u8 + (fraction % 10) as u8;
    } else {
        digits[0] = 48u8 + ((fraction / 100) % 10) as u8;
        digits[1] = 48u8 + ((fraction / 10) % 10) as u8;
        digits[2] = 48u8 + (fraction % 10) as u8;
    }
    assert(digits@.subrange(0, n as int) =~= padded(fraction as nat, n as nat));
    digits
}

/// The frequency field of `freq`, written to the start of `buffer`.
pub fn format_freq_field<'a>(freq: u32, buffer: &'a mut [u8; 10]) -> (r: &'a [u8])
    ensures
        r@ == freq_field(freq),
        r@ == final(buffer)@.subrange(0, r@.len() as int),
{
    let (divisor, decimals, suffix) = freq_scale_exec(freq);
    let whole: u32 = freq / divisor;
    proof {
        reveal_with_fuel(pow10, 5);
        if divisor == 1_000_000 {
            lemma_decimal_len(whole as nat, 4);
        } else {
            lemma_decimal_len(whole as nat, 3);
        }
    }
    let mut whole_digits: [u8; 10] = [0u8; 10];
    let whole_field = format_u32(whole, &mut whole_digits);
    let wlen = whole_field.len();
    let mut index: usize = 0;
    while index < wlen
        invariant
            wlen == whole_field@.len(),
            wlen <= 4,
            index <= wlen,
            forall|j: int| 0 <= j < index ==> #[trigger] buffer@[j] == whole_field@[j],
        decreases wlen - index,
    {
        buffer[index] = whole_field[index];
        index += 1;
    }
    assert(buffer@.subrange(0, wlen as int) =~= decimal(whole as nat));
    if decimals > 0 {
        buffer[index] = 46u8;
        index += 1;
        let p10: u32 = pow10_exec(decimals);
        assert(divisor >= 1000);
        let denom: u32 = divisor / p10;
        assert(denom >= 1) by (nonlinear_arith)
            requires denom == divisor / p10, divisor >= 1000, 1 <= p10 <= 1000;
        let fraction: u32 = (freq % divisor) / denom;
        let digits = fraction_digits(fraction, decimals);
        let mut k: usize = 0;
        while k < decimals
            invariant
                index == wlen + 1,
                wlen <= 4,
                decimals <= 3,
                k <= decimals,
                buffer@.subrange(0, wlen as int) == decimal(whole as nat),
                buffer@[wlen as int] == 46u8,
                forall|j: int| 0 <= j < k ==> #[trigger] buffer@[index + j] == digits@[j],
            decreases decimals - k,
        {
            buffer[index + k] = digits[k];
            k += 1;
        }
        assert forall|j: int| 0 <= j < decimals implies buffer@.subrange(index as int, (index + decimals) as int)[j]
            == digits@.subrange(0, decimals as int)[j] by {
            assert(buffer@[index + j] == digits@[j]);
        }
        assert(buffer@.subrange(index as int, (index + decimals) as int) =~= digits@.subrange(0, decimals as int));
        index += decimals;
    }
    buffer[index] = suffix;
    index += 1;
    assert(buffer@.subrange(0, index as int) =~= freq_field(freq));
    &buffer[0..index]
}

/// The bytes of an ASCII text.
pub open spec fn char_bytes(s: Seq<char>) -> Seq<u8> {
    s.map_values(|c: char| c as u8)
}

/// The bytes of an ASCII string literal.
fn literal_bytes(s: &'static str) -> (r: &'static [u8])
    requires
        vstd::string::is_ascii(s),
    ensures
        r@ == char_bytes(s@),
{
    let r = s.as_bytes();
    proof {
        vstd::utf8::is_ascii_chars_encode_utf8(s@);
        assert(r@ =~= char_bytes(s@));
    }
    r
}

/// The label of each frequency step.
pub open spec fn step_label_text(idx: int) -> Seq<char> {
    if idx == 0 {
        "10H"@
    } else if idx == 1 {
        "100H"@
    } else if idx == 2 {
        "500H"@
    } else if idx == 3 {
        "1K"@
    } else if idx == 4 {
        "10K"@
    } else if idx == 5 {
        "100K"@
    } else if idx == 6 {
        "500K"@
    } else if idx == 7 {
        "1M"@
    } else {
        "10M"@
    }
}

/// The label of frequency step `step_idx`, e.g. `500H`, `10K`, `1M`.
pub fn step_label(step_idx: usize) -> (r: &'static [u8])
    requires
        step_idx < STEP_COUNT,
    ensures
        r@ == char_bytes(step_label_text(step_idx as int)),
        r@.len() <= 4,
{
    proof {
        reveal_strlit("10H");
        reveal_strlit("100H");
        reveal_strlit("500H");
        reveal_strlit("1K");
        reveal_strlit("10K");
        reveal_strlit("100K");
        reveal_strlit("500K");
        reveal_strlit("1M");
        reveal_strlit("10M");
    }
    match step_values(step_idx) {
        10 => literal_bytes("10H"),
        100 => literal_bytes("100H"),
        500 => literal_bytes("500H"),
        1_000 => literal_bytes("1K"),
        10_000 => literal_bytes("10K"),
        100_000 => literal_bytes("100K"),
        500_000 => literal_bytes("500K"),
        1_000_000 => literal_bytes("1M"),
        _ => literal_bytes("10M"),
    }
}

/// The output state label: `ON ` or `OFF`.
pub fn state_label(enabled: bool) -> (r: &'static [u8])
    ensures
        r@ == char_bytes(if enabled { "ON "@ } else { "OFF"@ }),
        r@.len() == 3,
{
    proof {
        reveal_strlit("ON ");
        reveal_strlit("OFF");
    }
    if enabled {
        literal_bytes("ON ")
    } else {
        literal_bytes("OFF")
    }
}

/// The control the encoder currently moves.
#[derive(Debug, Copy, Clone, Eq, PartialEq, Structural)]
pub enum Control {
    Frequency,
    Step,
    State,
}

impl Control {
    pub open spec fn spec_next(self) -> Control {
        match self {
            Control::Frequency => Control::Step,
            Control::Step => Control::State,
            Control::State => Control::Frequency,
        }
    }

    /// The next control, cyclically: frequency, step, output state.
    pub fn next(self) -> (r: Self)
        ensures
            r == self.spec_next(),
    {
        match self {
            Self::Frequency => Self::Step,
            Self::Step => Self::State,
            Self::State => Self::Frequency,
        }
    }
}

/// Which way the encoder moved since it was last sampled.
#[derive(Debug, Copy, Clone, Eq, PartialEq, Structural)]
pub enum Direction {
    Clockwise,
    Anticlockwise,
    Still,
}

/// One output of the generator: what is applied to it, and the draft the
/// encoder edits until it is applied.
#[derive(Debug, Copy, Clone)]
pub struct ChannelState {
    pub name: &'static [u8],
    pub pll: PLL,
    pub output: ClockOutput,
    pub applied_freq: u32,
    pub draft_freq: u32,
    pub applied_step_idx: usize,
    pub draft_step_idx: usize,
    pub applied_enabled: bool,
    pub draft_enabled: bool,
}

impl ChannelState {
    /// Step indices name frequency steps.
    pub open spec fn wf(self) -> bool {
        self.applied_step_idx < STEP_COUNT && self.draft_step_idx < STEP_COUNT
    }

    pub open spec fn spec_has_pending_changes(self) -> bool {
        self.applied_freq != self.draft_freq || self.applied_step_idx != self.draft_step_idx
            || self.applied_enabled != self.draft_enabled
    }

    /// A channel at `freq`, smallest step, output disabled, nothing pending.
    pub fn new(name: &'static [u8], pll: PLL, output: ClockOutput, freq: u32) -> (r: Self)
        ensures
            r.wf(),
            r.name == name && r.pll == pll && r.output == output,
            r.applied_freq == freq && r.draft_freq == freq,
            r.applied_step_idx == 0 && r.draft_step_idx == 0,
            !r.applied_enabled && !r.draft_enabled,
    {
        Self {
            name,
            pll,
            output,
            applied_freq: freq,
            draft_freq: freq,
            applied_step_idx: 0,
            draft_step_idx: 0,
            applied_enabled: false,
            draft_enabled: false,
        }
    }

    /// Whether the draft differs from what is applied.
    pub fn has_pending_changes(&self) -> (r: bool)
        ensures
            r == self.spec_has_pending_changes(),
    {
        self.applied_freq != self.draft_freq || self.applied_step_idx != self.draft_step_idx
            || self.applied_enabled != self.draft_enabled
    }

    /// Apply the draft of `control`, and say what the generator must be
    /// told: the frequency is reprogrammed (and the output state re-sent),
    /// the output state alone is switched, the step needs nothing.
    pub fn apply(&mut self, control: Control) -> (r: ChannelEffect)
        ensures
            (*final(self), r) == apply_spec(*old(self), control),
    {
        match control {
            Control::Frequency => {
                self.applied_freq = self.draft_freq;
                ChannelEffect::Reprogram
            },
            Control::Step => {
                self.applied_step_idx = self.draft_step_idx;
                ChannelEffect::Nothing
            },
            Control::State => {
                self.applied_enabled = self.draft_enabled;
                ChannelEffect::Switch
            },
        }
    }
}

/// What applying a control asks of the generator.
#[derive(Debug, Copy, Clone, Eq, PartialEq, Structural)]
pub enum ChannelEffect {
    /// Nothing.
    Nothing,
    /// Set the applied frequency on the channel's output from its PLL, then
    /// set the output's enable to the applied state and flush its control
    /// register and the output enables.
    Reprogram,
    /// Set the output's enable to the applied state and flush its control
    /// register and the output enables.
    Switch,
}

pub open spec fn apply_spec(c: ChannelState, control: Control) -> (ChannelState, ChannelEffect) {
    match control {
        Control::Frequency => (ChannelState { applied_freq: c.draft_freq, ..c }, ChannelEffect::Reprogram),
        Control::Step => (ChannelState { applied_step_idx: c.draft_step_idx, ..c }, ChannelEffect::Nothing),
        Control::State => (ChannelState { applied_enabled: c.draft_enabled, ..c }, ChannelEffect::Switch),
    }
}

/// One encoder step on a frequency: up by `step` capped at the maximum, or
/// down by `step` floored at the minimum (both saturating).
pub open spec fn adjust_spec(freq: u32, step: u32, direction: Direction) -> u32 {
    match direction {
        Direction::Clockwise => {
            let up = if freq + step > u32::MAX { u32::MAX as int } else { freq + step };
            if up < FREQ_MAX_HZ { up as u32 } else { FREQ_MAX_HZ }
        },
        Direction::Anticlockwise => {
            let down = if freq < step { 0 } else { freq - step };
            if down > FREQ_MIN_HZ { down as u32 } else { FREQ_MIN_HZ }
        },
        Direction::Still => freq,
    }
}

/// Move `freq` one step in `direction`.
pub fn adjust_frequency(freq: &mut u32, step: u32, direction: Direction)
    ensures
        *final(freq) == adjust_spec(*old(freq), step, direction),
{
    match direction {
        Direction::Clockwise => {
            *freq = freq.saturating_add(step);
            if *freq > FREQ_MAX_HZ {
                *freq = FREQ_MAX_HZ;
            }
        },
        Direction::Anticlockwise => {
            *freq = freq.saturating_sub(step);
            if *freq < FREQ_MIN_HZ {
                *freq = FREQ_MIN_HZ;
            }
        },
        Direction::Still => {},
    }
}

/// Title line byte `i`: the channel name (truncated), a `*` right after it
/// while changes are pending, spaces after.
pub open spec fn title_byte(c: ChannelState, i: int) -> u8 {
    let w = if c.name@.len() < LINE_WIDTH { c.name@.len() as int } else { LINE_WIDTH as int };
    if i < w {
        c.name@[i]
    } else if i == w && c.spec_has_pending_changes() {
        42u8
    } else {
        32u8
    }
}

/// The title line of a channel.
pub fn title_line(channel: &ChannelState) -> (r: [u8; LINE_WIDTH])
    ensures
        forall|i: int| 0 <= i < LINE_WIDTH ==> #[trigger] r[i] == title_byte(*channel, i),
{
    let mut line: [u8; LINE_WIDTH] = [32u8; LINE_WIDTH];
    let width: usize = if channel.name.len() < LINE_WIDTH { channel.name.len() } else { LINE_WIDTH };
    let mut i: usize = 0;
    while i < width
        invariant
            width <= LINE_WIDTH,
            width == (if channel.name@.len() < LINE_WIDTH { channel.name@.len() as int } else { LINE_WIDTH as int }),
            i <= width,
            forall|j: int| 0 <= j < i ==> #[trigger] line[j] == channel.name@[j],
            forall|j: int| i <= j < LINE_WIDTH ==> #[trigger] line[j] == 32u8,
        decreases width - i,
    {
        line[i] = channel.name[i];
        i += 1;
    }
    if channel.has_pending_changes() && width < LINE_WIDTH {
        line[width] = 42u8;
    }
    line
}

/// The marker in front of a control: `>` when it is selected.
pub open spec fn marker(selected: Control, control: Control) -> u8 {
    if selected == control { 62u8 } else { 32u8 }
}

/// Status line byte `i`: the frequency field (up to 6 characters) at 1, the
/// step label (up to 4) at 8, the output state at 13, each behind its
/// selection marker.
pub open spec fn status_byte(c: ChannelState, selected: Control, i: int) -> u8 {
    let f = freq_field(c.draft_freq);
    let st = char_bytes(step_label_text(c.draft_step_idx as int));
    let on = char_bytes(if c.draft_enabled { "ON "@ } else { "OFF"@ });
    if i == 0 {
        marker(selected, Control::Frequency)
    } else if 1 <= i < 7 {
        if i - 1 < f.len() { f[i - 1] } else { 32u8 }
    } else if i == 7 {
        marker(selected, Control::Step)
    } else if 8 <= i < 12 {
        if i - 8 < st.len() { st[i - 8] } else { 32u8 }
    } else if i == 12 {
        marker(selected, Control::State)
    } else {
        on[i - 13]
    }
}

/// The status line of a channel with `selected_control` selected.
pub fn status_line(channel: &ChannelState, selected_control: Control) -> (r: [u8; LINE_WIDTH])
    requires
        channel.wf(),
    ensures
        forall|i: int| 0 <= i < LINE_WIDTH ==> #[trigger] r[i] == status_byte(*channel, selected_control, i),
{
    let mut line: [u8; LINE_WIDTH] = [32u8; LINE_WIDTH];
    let mut freq: [u8; 10] = [0u8; 10];
    let freq_field = format_freq_field(channel.draft_freq, &mut freq);
    let freq_width: usize = if freq_field.len() < 6 { freq_field.len() } else { 6 };

    line[0] = if selected_control == Control::Frequency { 62u8 } else { 32u8 };
    let mut i: usize = 0;
    while i < freq_width
        invariant
            freq_width <= 6,
            freq_width as int == (if freq_field@.len() < 6 { freq_field@.len() as int } else { 6 }),
            i <= freq_width,
            line[0] == marker(selected_control, Control::Frequency),
            forall|j: int| 1 <= j < 1 + i ==> #[trigger] line[j] == freq_field@[j - 1],
            forall|j: int| 1 + i <= j < LINE_WIDTH ==> #[trigger] line[j] == 32u8,
        decreases freq_width - i,
    {
        line[1 + i] = freq_field[i];
        i += 1;
    }

    line[7] = if selected_control == Control::Step { 62u8 } else { 32u8 };
    let step_field = step_label(channel.draft_step_idx);
    let step_width: usize = step_field.len();
    let mut k: usize = 0;
    while k < step_width
        invariant
            step_width <= 4,
            freq_width <= 6,
            step_width == step_field@.len(),
            k <= step_width,
            line[0] == marker(selected_control, Control::Frequency),
            forall|j: int| 1 <= j < 1 + freq_width ==> #[trigger] line[j] == freq_field@[j - 1],
            forall|j: int| 1 + freq_width <= j < 7 ==> #[trigger] line[j] == 32u8,
            line[7] == marker(selected_control, Control::Step),
            forall|j: int| 8 <= j < 8 + k ==> #[trigger] line[j] == step_field@[j - 8],
            forall|j: int| 8 + k <= j < LINE_WIDTH ==> #[trigger] line[j] == 32u8,
        decreases step_width - k,
    {
        line[8 + k] = step_field[k];
        k += 1;
    }

    line[12] = if selected_control == Control::State { 62u8 } else { 32u8 };
    let state_field = state_label(channel.draft_enabled);
    line[13] = state_field[0];
    line[14] = state_field[1];
    line[15] = state_field[2];
    line
}

/// Channels of the generator.
pub const CHANNELS: usize = 2;

/// Button samples (1 ms apart) a new level must hold to count.
pub const BUTTON_DEBOUNCE_TICKS: u8 = 20;

/// Nominal length of a press, in samples.
pub const NORMAL_PRESS_TICKS: u16 = 200;

/// A press held this long switches channel.
pub const LONG_PRESS_TICKS: u16 = NORMAL_PRESS_TICKS * 3;

/// A second press within this many samples of the first makes a double
/// press.
pub const DOUBLE_SHORT_PRESS_TICKS: u16 = NORMAL_PRESS_TICKS * 2;

/// Front panel state: the channel shown, the control selected, stale LCD
/// lines, and the button debouncer and press classifier.
#[derive(Debug, Copy, Clone, Eq, PartialEq, Structural)]
pub struct Ui {
    pub active_channel: usize,
    pub selected_control: Control,
    pub title_dirty: bool,
    pub status_dirty: bool,
    pub button_pressed: bool,
    pub button_candidate: bool,
    pub button_stable_ticks: u8,
    pub button_press_ticks: u16,
    pub pending_short_press: bool,
    pub short_press_gap_ticks: u16,
}

/// What one panel sample asks of the owner of the hardware.
#[derive(Debug, Copy, Clone)]
pub struct TickOutput {
    /// Generator work for channel `channel`.
    pub effect: ChannelEffect,
    pub channel: usize,
    /// The title line to write, when it changed.
    pub title: Option<[u8; LINE_WIDTH]>,
    /// The status line to write, when it changed.
    pub status: Option<[u8; LINE_WIDTH]>,
}

/// The channel after one encoder step with `selected` selected: the draft
/// frequency moves by the draft step, the step index cycles through the
/// steps, the output state toggles.
pub open spec fn rotate_spec(c: ChannelState, selected: Control, rot: Direction) -> ChannelState {
    match rot {
        Direction::Still => c,
        Direction::Clockwise => match selected {
            Control::Frequency => ChannelState {
                draft_freq: adjust_spec(c.draft_freq, step_value(c.draft_step_idx as int), Direction::Clockwise),
                ..c
            },
            Control::Step => ChannelState { draft_step_idx: ((c.draft_step_idx + 1) % (STEP_COUNT as int)) as usize, ..c },
            Control::State => ChannelState { draft_enabled: !c.draft_enabled, ..c },
        },
        Direction::Anticlockwise => match selected {
            Control::Frequency => ChannelState {
                draft_freq: adjust_spec(c.draft_freq, step_value(c.draft_step_idx as int), Direction::Anticlockwise),
                ..c
            },
            Control::Step => ChannelState {
                draft_step_idx: if c.draft_step_idx == 0 { (STEP_COUNT - 1) as usize } else { (c.draft_step_idx - 1) as usize },
                ..c
            },
            Control::State => ChannelState { draft_enabled: !c.draft_enabled, ..c },
        },
    }
}

/// The debouncer after one button sample: a level that differs from the
/// candidate restarts the count; an unchanged one counts up to the limit.
pub open spec fn debounce_spec(u: Ui, sampled: bool) -> Ui {
    if sampled == u.button_candidate {
        if u.button_stable_ticks < BUTTON_DEBOUNCE_TICKS {
            Ui { button_stable_ticks: (u.button_stable_ticks + 1) as u8, ..u }
        } else {
            u
        }
    } else {
        Ui { button_candidate: sampled, button_stable_ticks: 0, ..u }
    }
}

/// A debounced button edge: a press starts timing; a long press released
/// switches channel; a short release within the double-press window of an
/// earlier one applies the selected control; any other short release opens
/// that window.
pub open spec fn edge_spec(u: Ui, ch: Seq<ChannelState>) -> (Ui, Seq<ChannelState>, ChannelEffect) {
    if u.button_stable_ticks >= BUTTON_DEBOUNCE_TICKS && u.button_candidate != u.button_pressed {
        let u1 = Ui { button_pressed: u.button_candidate, ..u };
        if u1.button_pressed {
            (Ui { button_press_ticks: 0, ..u1 }, ch, ChannelEffect::Nothing)
        } else if u1.button_press_ticks >= LONG_PRESS_TICKS {
            (
                Ui {
                    pending_short_press: false,
                    short_press_gap_ticks: 0,
                    active_channel: ((u1.active_channel + 1) % (CHANNELS as int)) as usize,
                    title_dirty: true,
                    status_dirty: true,
                    ..u1
                },
                ch,
                ChannelEffect::Nothing,
            )
        } else if u1.pending_short_press && u1.short_press_gap_ticks < DOUBLE_SHORT_PRESS_TICKS {
            let (c, effect) = apply_spec(ch[u1.active_channel as int], u1.selected_control);
            (
                Ui { pending_short_press: false, short_press_gap_ticks: 0, title_dirty: true, status_dirty: true, ..u1 },
                ch.update(u1.active_channel as int, c),
                effect,
            )
        } else {
            (Ui { pending_short_press: true, short_press_gap_ticks: 0, ..u1 }, ch, ChannelEffect::Nothing)
        }
    } else {
        (u, ch, ChannelEffect::Nothing)
    }
}

/// Press and double-press timers: a held button counts towards a long
/// press; an open double-press window counts down, and when it closes the
/// single press selects the next control.
pub open spec fn timers_spec(u: Ui) -> Ui {
    let u1 = if u.button_pressed && u.button_press_ticks < LONG_PRESS_TICKS {
        Ui { button_press_ticks: (u.button_press_ticks + 1) as u16, ..u }
    } else {
        u
    };
    if u1.pending_short_press && u1.short_press_gap_ticks < DOUBLE_SHORT_PRESS_TICKS {
        Ui { short_press_gap_ticks: (u1.short_press_gap_ticks + 1) as u16, ..u1 }
    } else if u1.pending_short_press {
        Ui {
            pending_short_press: false,
            short_press_gap_ticks: 0,
            selected_control: u1.selected_control.spec_next(),
            status_dirty: true,
            ..u1
        }
    } else {
        u1
    }
}

/// One panel sample: the encoder moves the active channel's draft, the
/// button is debounced and classified, and the dirty lines are handed out.
/// Returns the panel state before the lines are handed out (its dirty flags
/// say which lines are), the channels, and the generator work.
pub open spec fn tick_spec(u: Ui, ch: Seq<ChannelState>, rot: Direction, sampled: bool) -> (Ui, Seq<ChannelState>, ChannelEffect) {
    let (u1, ch1) = if rot == Direction::Still {
        (u, ch)
    } else {
        (
            Ui { title_dirty: true, status_dirty: true, ..u },
            ch.update(u.active_channel as int, rotate_spec(ch[u.active_channel as int], u.selected_control, rot)),
        )
    };
    let (u2, ch2, effect) = edge_spec(debounce_spec(u1, sampled), ch1);
    (timers_spec(u2), ch2, effect)
}

/// Whether a panel state and its channels are consistent.
pub open spec fn panel_wf(u: Ui, ch: Seq<ChannelState>) -> bool {
    &&& u.active_channel < CHANNELS
    &&& ch.len() == CHANNELS
    &&& forall|i: int| 0 <= i < CHANNELS ==> #[trigger] ch[i].wf()
}

impl Ui {
    /// A panel at power on: first channel, frequency selected, both lines to
    /// draw, the button at the level sampled now.
    pub fn new(button_pressed: bool) -> (r: Ui)
        ensures
            r.active_channel == 0,
            r.selected_control == Control::Frequency,
            r.title_dirty && r.status_dirty,
            r.button_pressed == button_pressed && r.button_candidate == button_pressed,
            r.button_stable_ticks == 0 && r.button_press_ticks == 0,
            !r.pending_short_press && r.short_press_gap_ticks == 0,
    {
        Ui {
            active_channel: 0,
            selected_control: Control::Frequency,
            title_dirty: true,
            status_dirty: true,
            button_pressed,
            button_candidate: button_pressed,
            button_stable_ticks: 0,
            button_press_ticks: 0,
            pending_short_press: false,
            short_press_gap_ticks: 0,
        }
    }

    fn rotate(channel: &mut ChannelState, selected: Control, rotation: Direction)
        requires
            old(channel).wf(),
        ensures
            *final(channel) == rotate_spec(*old(channel), selected, rotation),
            final(channel).wf(),
    {
        match rotation {
            Direction::Clockwise => match selected {
                Control::Frequency => {
                    let step = step_values(channel.draft_step_idx);
                    adjust_frequency(&mut channel.draft_freq, step, Direction::Clockwise);
                },
                Control::Step => {
                    channel.draft_step_idx = (channel.draft_step_idx + 1) % STEP_COUNT;
                },
                Control::State => {
                    channel.draft_enabled = !channel.draft_enabled;
                },
            },
            Direction::Anticlockwise => match selected {
                Control::Frequency => {
                    let step = step_values(channel.draft_step_idx);
                    adjust_frequency(&mut channel.draft_freq, step, Direction::Anticlockwise);
                },
                Control::Step => {
                    channel.draft_step_idx = if channel.draft_step_idx == 0 {
                        STEP_COUNT - 1
                    } else {
                        channel.draft_step_idx - 1
                    };
                },
                Control::State => {
                    channel.draft_enabled = !channel.draft_enabled;
                },
            },
            Direction::Still => {},
        }
    }

    /// Take one 1 ms sample: `rotation` from the encoder, `sampled_pressed`
    /// the button level. Channel `r.channel` gets generator work `r.effect`;
    /// the lines in `r` are to be written.
    #[verifier::spinoff_prover]
    #[verifier::rlimit(40)]
    pub fn tick(&mut self, channels: &mut [ChannelState; CHANNELS], rotation: Direction, sampled_pressed: bool) -> (r: TickOutput)
        requires
            panel_wf(*old(self), old(channels)@),
        ensures
            panel_wf(*final(self), final(channels)@),
            ({
                let (u, ch, effect) = tick_spec(*old(self), old(channels)@, rotation, sampled_pressed);
                &&& *final(self) == (Ui { title_dirty: false, status_dirty: false, ..u })
                &&& final(channels)@ == ch
                &&& r.effect == effect
                &&& (effect != ChannelEffect::Nothing ==> r.channel == u.active_channel)
                &&& (r.title is Some <==> u.title_dirty)
                &&& (r.status is Some <==> u.status_dirty)
                &&& (r.title matches Some(l) ==> forall|i: int| 0 <= i < LINE_WIDTH ==> #[trigger] l[i] == title_byte(ch[u.active_channel as int], i))
                &&& (r.status matches Some(l) ==> forall|i: int| 0 <= i < LINE_WIDTH ==> #[trigger] l[i] == status_byte(ch[u.active_channel as int], u.selected_control, i))
            }),
    {
        // Encoder: move the active channel's draft.
        if rotation != Direction::Still {
            let a = self.active_channel;
            let mut c = channels[a];
            Self::rotate(&mut c, self.selected_control, rotation);
            channels[a] = c;
            assert forall|i: int| 0 <= i < CHANNELS implies #[trigger] channels@[i].wf() by {
                if i != a as int {
                    assert(channels@[i] == old(channels)@[i]);
                }
            }
            self.title_dirty = true;
            self.status_dirty = true;
        }
        assert(channels@ =~= (if rotation == Direction::Still { old(channels)@ } else {
            old(channels)@.update(old(self).active_channel as int, rotate_spec(old(channels)@[old(self).active_channel as int], old(self).selected_control, rotation))
        }));

        // Debounce the button.
        if sampled_pressed == self.button_candidate {
            if self.button_stable_ticks < BUTTON_DEBOUNCE_TICKS {
                self.button_stable_ticks += 1;
            }
        } else {
            self.button_candidate = sampled_pressed;
            self.button_stable_ticks = 0;
        }

        // Classify a debounced edge.
        let mut effect = ChannelEffect::Nothing;
        let ghost ch1 = channels@;
        assert(forall|i: int| 0 <= i < CHANNELS ==> #[trigger] ch1[i].wf());
        if self.button_stable_ticks >= BUTTON_DEBOUNCE_TICKS && self.button_candidate != self.button_pressed {
            self.button_pressed = self.button_candidate;
            if self.button_pressed {
                self.button_press_ticks = 0;
            } else if self.button_press_ticks >= LONG_PRESS_TICKS {
                self.pending_short_press = false;
                self.short_press_gap_ticks = 0;
                self.active_channel = (self.active_channel + 1) % CHANNELS;
                self.title_dirty = true;
                self.status_dirty = true;
            } else if self.pending_short_press && self.short_press_gap_ticks < DOUBLE_SHORT_PRESS_TICKS {
                let a = self.active_channel;
                let mut c = channels[a];
                assert(c == ch1[a as int]);
                assert(ch1[a as int].wf());
                effect = c.apply(self.selected_control);
                assert(c.wf());
                channels[a] = c;
                assert forall|i: int| 0 <= i < CHANNELS implies #[trigger] channels@[i].wf() by {
                    if i != a as int {
                        assert(channels@[i] == ch1[i]);
                    }
                }
                assert(channels@ =~= ch1.update(a as int, c));
                self.pending_short_press = false;
                self.short_press_gap_ticks = 0;
                self.title_dirty = true;
                self.status_dirty = true;
            } else {
                self.pending_short_press = true;
                self.short_press_gap_ticks = 0;
            }
        }

        // Long-press and double-press timers.
        if self.button_pressed && self.button_press_ticks < LONG_PRESS_TICKS {
            self.button_press_ticks += 1;
        }
        if self.pending_short_press && self.short_press_gap_ticks < DOUBLE_SHORT_PRESS_TICKS {
            self.short_press_gap_ticks += 1;
        } else if self.pending_short_press {
            self.pending_short_press = false;
            self.short_press_gap_ticks = 0;
            self.selected_control = self.selected_control.next();
            self.status_dirty = true;
        }

        // Hand out the stale lines.
        let a = self.active_channel;
        let title = if self.title_dirty {
            Some(title_line(&channels[a]))
        } else {
            None
        };
        let status = if self.status_dirty {
            Some(status_line(&channels[a], self.selected_control))
        } else {
            None
        };
        self.title_dirty = false;
        self.status_dirty = false;
        TickOutput { effect, channel: a, title, status }
    }
}

/// The encoder moves the draft frequency by the step the status line shows:
/// with the frequency selected, one detent clockwise adds the draft step
/// (`step_value(draft_step_idx)`, not the applied one), capped at the
/// maximum; anticlockwise subtracts it, floored at the minimum. Nothing
/// else of the channel changes.
pub proof fn lemma_encoder_moves_by_draft_step(c: ChannelState, rot: Direction)
    requires
        c.wf(),
    ensures
        rot == Direction::Clockwise ==> rotate_spec(c, Control::Frequency, rot).draft_freq == (if c.draft_freq
            + step_value(c.draft_step_idx as int) < FREQ_MAX_HZ {
            c.draft_freq + step_value(c.draft_step_idx as int)
        } else {
            FREQ_MAX_HZ as int
        }),
        rot == Direction::Anticlockwise ==> rotate_spec(c, Control::Frequency, rot).draft_freq == (if c.draft_freq
            - step_value(c.draft_step_idx as int) > FREQ_MIN_HZ {
            c.draft_freq - step_value(c.draft_step_idx as int)
        } else {
            FREQ_MIN_HZ as int
        }),
        rotate_spec(c, Control::Frequency, rot) == (ChannelState {
            draft_freq: rotate_spec(c, Control::Frequency, rot).draft_freq,
            ..c
        }),
{
}

/// One panel sample with the frequency selected moves the active channel's
/// draft frequency by the draft step it shows, whatever the button does in
/// the same sample.
pub proof fn lemma_tick_moves_draft_by_draft_step(u: Ui, ch: Seq<ChannelState>, rot: Direction, sampled: bool)
    requires
        panel_wf(u, ch),
        u.selected_control == Control::Frequency,
        rot != Direction::Still,
    ensures
        ({
            let c = ch[u.active_channel as int];
            let step = step_value(c.draft_step_idx as int);
            let after = tick_spec(u, ch, rot, sampled).1[u.active_channel as int].draft_freq;
            &&& rot == Direction::Clockwise ==> after == (if c.draft_freq + step < FREQ_MAX_HZ {
                c.draft_freq + step
            } else {
                FREQ_MAX_HZ as int
            })
            &&& rot == Direction::Anticlockwise ==> after == (if c.draft_freq - step > FREQ_MIN_HZ {
                c.draft_freq - step
            } else {
                FREQ_MIN_HZ as int
            })
        }),
{
    let a = u.active_channel as int;
    lemma_encoder_moves_by_draft_step(ch[a], rot);
    let u1 = Ui { title_dirty: true, status_dirty: true, ..u };
    let ch1 = ch.update(a, rotate_spec(ch[a], u.selected_control, rot));
    let d = debounce_spec(u1, sampled);
    assert(d.active_channel == u.active_channel);
    let (u2, ch2, e) = edge_spec(d, ch1);
    assert(ch2[a].draft_freq == ch1[a].draft_freq);
}

/// The status line shows the draft being edited: its frequency field is
/// the field of the draft frequency, and two channels with the same drafts
/// show the same line whatever has been applied.
pub proof fn lemma_status_line_shows_draft(c: ChannelState, d: ChannelState, selected: Control)
    ensures
        forall|i: int| 1 <= i < 7 && i - 1 < freq_field(c.draft_freq).len()
            ==> #[trigger] status_byte(c, selected, i) == freq_field(c.draft_freq)[i - 1],
        c.draft_freq == d.draft_freq && c.draft_step_idx == d.draft_step_idx && c.draft_enabled == d.draft_enabled
            ==> forall|i: int| 0 <= i < LINE_WIDTH ==> #[trigger] status_byte(c, selected, i) == status_byte(d, selected, i),
{
}

/// The encoder keeps a draft frequency in range: from anywhere between the
/// minimum and the maximum, a step either way lands between them again.
pub proof fn lemma_adjust_in_range(freq: u32, step: u32, direction: Direction)
    requires
        FREQ_MIN_HZ <= freq <= FREQ_MAX_HZ,
    ensures
        FREQ_MIN_HZ <= adjust_spec(freq, step, direction) <= FREQ_MAX_HZ,
{
}

/// Turning the encoder one step and back leaves the step index where it
/// was: the steps form a cycle.
pub proof fn lemma_step_cycle(c: ChannelState)
    requires
        c.wf(),
    ensures
        rotate_spec(rotate_spec(c, Control::Step, Direction::Clockwise), Control::Step, Direction::Anticlockwise)
            == c,
        rotate_spec(rotate_spec(c, Control::Step, Direction::Anticlockwise), Control::Step, Direction::Clockwise)
            == c,
{
}

/// Only a double press changes what is applied to the generator: a sample
/// without generator work leaves every channel's applied settings alone.
pub proof fn lemma_applied_changes_only_on_apply(u: Ui, ch: Seq<ChannelState>, rot: Direction, sampled: bool, i: int)
    requires
        panel_wf(u, ch),
        0 <= i < CHANNELS,
        tick_spec(u, ch, rot, sampled).2 == ChannelEffect::Nothing,
        u.selected_control != Control::Step,
    ensures
        tick_spec(u, ch, rot, sampled).1[i].applied_freq == ch[i].applied_freq,
        tick_spec(u, ch, rot, sampled).1[i].applied_enabled == ch[i].applied_enabled,
{
}

} // verus!
