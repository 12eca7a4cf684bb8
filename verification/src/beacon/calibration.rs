//! Calibration policy: what to do with each gated tick count.
//!
//! The driver owns the hardware and the PPS gate; this owns the decisions. It
//! is fed one tick count per gate and answers with the next action, so the
//! whole sequence - warmup, correct, settle, converge - is a plain state
//! machine with no I2C, no interrupts and no shared resources in it.

use vstd::prelude::*;
use crate::calibrate::{
    self, spec_correct, spec_correction_ppb, spec_error_ppb, spec_plausible,
};
use crate::frequency::Frequency;

verus! {

/// Readings discarded after the generator is first programmed, while the
/// output settles.
pub const WARMUP_GATES: u8 = 2;

/// Upper bound on measurement gates, so calibration always terminates.
pub const MEASURE_GATES: u8 = 6;

/// Below this the dial is good enough and calibration stops early.
pub const TOLERANCE_PPB: i64 = 300;

/// Most gates a calibration can take, from the first one to the `Stop`.
pub const MAX_GATES: u8 = 15;

/// What the driver must do before the next gate.
#[derive(Debug, Clone, Copy, PartialEq, Eq, Structural)]
pub enum Step {
    /// Nothing to do: keep gating.
    Continue,
    /// Program the generator to this dial frequency, then keep gating.
    SetDial(Frequency),
    /// Calibration is over: stop the generator. `Some(ppb)` is the crystal
    /// error to apply to later transmissions, `None` that nothing usable was
    /// measured.
    Stop(Option<i64>),
}

/// A [`Step`] with its dial frequency in microhertz.
pub enum StepView {
    Continue,
    SetDial(nat),
    Stop(Option<i64>),
}

impl View for Step {
    type V = StepView;

    open spec fn view(&self) -> StepView {
        match *self {
            Step::Continue => StepView::Continue,
            Step::SetDial(f) => StepView::SetDial(f@),
            Step::Stop(r) => StepView::Stop(r),
        }
    }
}

/// The verdict on the most recent gate. Kept apart from [`Step`] because it
/// steers nothing: it lets the driver log the reading without redoing the
/// arithmetic.
#[derive(Debug, Clone, Copy, PartialEq, Eq, Structural)]
pub enum Reading {
    /// Gate not measured at all: generator off, or the count straddles a dial
    /// change and is part old frequency, part new.
    Skipped,
    /// Error against nominal, in ppb.
    Ppb(i64),
    /// Error too large to be a real crystal error - a missed or doubled
    /// reference tick. Gate rejected.
    Rejected(i64),
}

/// Where the machine stands between gates.
#[derive(Debug, Clone, Copy, PartialEq, Eq, Structural)]
pub enum Phase {
    /// Generator not yet programmed; whatever is counting now means nothing.
    Start,
    /// Output settling: `left` more readings to discard.
    Warmup { left: u8 },
    /// Measuring: `left` readings still to spend. `settle` marks a gate that
    /// straddles a dial change and must be thrown away without costing one.
    Measure { left: u8, settle: bool },
    /// Finished; the driver should have stopped feeding us.
    Done,
}

/// Calibration state machine.
pub struct Calibration {
    nominal: Frequency,
    dial: Frequency,
    phase: Phase,
    /// Plausible readings seen, so a run that measured nothing can say so
    /// rather than reporting a confident zero.
    good: u8,
    last: Reading,
}

/// The state of a [`Calibration`], frequencies in microhertz.
pub struct CalibModel {
    pub nominal: nat,
    pub dial: nat,
    pub phase: Phase,
    pub good: nat,
    pub last: Reading,
}

impl CalibModel {
    /// The states a calibration can be in: a positive nominal, and no more
    /// plausible readings counted than measurement gates spent.
    pub open spec fn wf(self) -> bool {
        &&& self.nominal > 0
        &&& self.nominal <= u64::MAX
        &&& self.dial <= u64::MAX
        &&& match self.phase {
            Phase::Start => self.good == 0,
            Phase::Warmup { left } => self.good == 0,
            Phase::Measure { left, settle } => self.good + left <= MEASURE_GATES,
            Phase::Done => self.good <= MEASURE_GATES,
        }
    }

    /// Upper bound on how many gates are left before the machine answers `Stop`.
    pub open spec fn gates_left(self) -> nat {
        match self.phase {
            Phase::Start => (3 + 2 * MEASURE_GATES) as nat,
            Phase::Warmup { left } => (if left == 0 { 1nat } else { left as nat }) + (2 * MEASURE_GATES) as nat,
            Phase::Measure { left, settle } => if left == 0 {
                1
            } else if settle {
                (2 * left + 1) as nat
            } else {
                (2 * left) as nat
            },
            Phase::Done => 1,
        }
    }
}

/// The model of a freshly created calibration.
pub open spec fn new_model(nominal: nat) -> CalibModel {
    CalibModel { nominal, dial: nominal, phase: Phase::Start, good: 0, last: Reading::Skipped }
}

/// End of a run: `Stop(Some(ppb))` with the whole error the dial carries, or
/// `Stop(None)` when no gate gave a plausible reading.
pub open spec fn finish_model(m: CalibModel) -> (CalibModel, StepView) {
    (
        CalibModel { phase: Phase::Done, ..m },
        if m.good == 0 {
            StepView::Stop(None)
        } else {
            StepView::Stop(Some(spec_correction_ppb(m.dial as int, m.nominal as int) as i64))
        },
    )
}

/// What one gate of `ticks` does to a calibration in state `m`.
pub open spec fn gate_model(m: CalibModel, ticks: u32) -> (CalibModel, StepView) {
    match m.phase {
        Phase::Start => (
            CalibModel {
                last: Reading::Skipped,
                dial: m.nominal,
                phase: Phase::Warmup { left: WARMUP_GATES },
                ..m
            },
            StepView::SetDial(m.nominal),
        ),
        Phase::Warmup { left } => (
            CalibModel {
                last: Reading::Ppb(spec_error_ppb(ticks as int, m.nominal as int, 1) as i64),
                phase: if left <= 1 {
                    Phase::Measure { left: MEASURE_GATES, settle: false }
                } else {
                    Phase::Warmup { left: (left - 1) as u8 }
                },
                ..m
            },
            StepView::Continue,
        ),
        Phase::Measure { left, settle } => if left == 0 {
            finish_model(CalibModel { last: Reading::Skipped, ..m })
        } else if settle {
            (
                CalibModel {
                    last: Reading::Skipped,
                    phase: Phase::Measure { left, settle: false },
                    ..m
                },
                StepView::Continue,
            )
        } else {
            let ppb = spec_error_ppb(ticks as int, m.nominal as int, 1);
            if !spec_plausible(ppb) {
                (
                    CalibModel {
                        last: Reading::Rejected(ppb as i64),
                        phase: Phase::Measure { left: (left - 1) as u8, settle: false },
                        ..m
                    },
                    StepView::Continue,
                )
            } else if -TOLERANCE_PPB <= ppb <= TOLERANCE_PPB {
                finish_model(CalibModel { last: Reading::Ppb(ppb as i64), good: m.good + 1, ..m })
            } else {
                let dial = spec_correct(m.dial as int, ppb) as nat;
                (
                    CalibModel {
                        last: Reading::Ppb(ppb as i64),
                        good: m.good + 1,
                        dial,
                        phase: Phase::Measure { left: (left - 1) as u8, settle: true },
                        ..m
                    },
                    StepView::SetDial(dial),
                )
            }
        },
        Phase::Done => (CalibModel { last: Reading::Skipped, ..m }, StepView::Stop(None)),
    }
}

/// Every gate keeps a calibration well formed, and either answers `Stop`,
/// leaving the machine finished, or brings it strictly closer to its end.
pub proof fn lemma_gate_progress(m: CalibModel, ticks: u32)
    requires
        m.wf(),
    ensures
        gate_model(m, ticks).0.wf(),
        gate_model(m, ticks).0.nominal == m.nominal,
        gate_model(m, ticks).1 is Stop ==> gate_model(m, ticks).0.phase == Phase::Done,
        !(gate_model(m, ticks).1 is Stop) ==> gate_model(m, ticks).0.gates_left() < m.gates_left(),
{
    let ppb = spec_error_ppb(ticks as int, m.nominal as int, 1);
    if let Phase::Measure { left, settle } = m.phase {
        if left != 0 && !settle && spec_plausible(ppb) && !(-TOLERANCE_PPB <= ppb <= TOLERANCE_PPB) {
            let d = spec_correct(m.dial as int, ppb);
            assert(0 <= d <= u64::MAX);
        }
    }
}

/// Corrections compound: a measuring gate that answers `SetDial(d)` moves
/// the dial currently programmed (not the nominal) by the error it just
/// measured, `d == correct(dial, ppb)`, the error taken against the nominal.
pub proof fn lemma_correction_compounds(m: CalibModel, ticks: u32)
    requires
        m.phase is Measure,
    ensures
        gate_model(m, ticks).1 matches StepView::SetDial(d)
            ==> d == spec_correct(m.dial as int, spec_error_ppb(ticks as int, m.nominal as int, 1)),
{
}

/// Over a run from a new calibration, every `SetDial` but the first (which
/// programs the nominal) is the correction of the dial last programmed by
/// the error that gate measured.
pub proof fn lemma_run_corrections_compound(nominal: nat, ticks: Seq<u32>, k: nat)
    requires
        0 < nominal <= u64::MAX,
    ensures
        step_at(new_model(nominal), ticks, k) matches StepView::SetDial(d) ==> {
            ||| k == 0 && d == nominal
            ||| d == spec_correct(
                last_set_dial(new_model(nominal), ticks, k) as int,
                spec_error_ppb(ticks[k as int] as int, nominal as int, 1),
            )
        },
{
    let m = new_model(nominal);
    lemma_run_wf(m, ticks, k);
    lemma_dial_is_last_set_dial(m, ticks, k);
    let s = state_after(m, ticks, k);
    if k > 0 && s.phase is Start {
        lemma_start_only_first(nominal, ticks, k);
    }
}

/// A new calibration leaves its start phase at the first gate and never
/// returns to it.
proof fn lemma_start_only_first(nominal: nat, ticks: Seq<u32>, k: nat)
    requires
        0 < nominal <= u64::MAX,
        k > 0,
    ensures
        !(state_after(new_model(nominal), ticks, k).phase is Start),
    decreases k,
{
    if k > 1 {
        lemma_start_only_first(nominal, ticks, (k - 1) as nat);
    }
}

/// `Stop` is final: once answered, every later gate answers `Stop(None)` and
/// leaves the dial alone.
pub proof fn lemma_stop_is_final(m: CalibModel, ticks: u32, later: u32)
    requires
        m.wf(),
        gate_model(m, ticks).1 is Stop,
    ensures
        gate_model(gate_model(m, ticks).0, later).1 == StepView::Stop(None),
        gate_model(gate_model(m, ticks).0, later).0.dial == gate_model(m, ticks).0.dial,
        gate_model(gate_model(m, ticks).0, later).0.phase == Phase::Done,
{
    lemma_gate_progress(m, ticks);
}

/// A count taken across a dial change mixes two frequencies: it is dropped,
/// not acted on, and not charged against the measurement budget.
pub proof fn lemma_straddling_gate_discarded(m: CalibModel, ticks: u32)
    requires
        m.phase matches Phase::Measure { left, settle } && left > 0 && settle,
    ensures
        gate_model(m, ticks).1 == StepView::Continue,
        gate_model(m, ticks).0.last == Reading::Skipped,
        gate_model(m, ticks).0.dial == m.dial,
        gate_model(m, ticks).0.good == m.good,
        m.phase matches Phase::Measure { left, settle } && gate_model(m, ticks).0.phase == (Phase::Measure { left, settle: false }),
{
}

/// The dial the machine holds is the one the driver was last told to program:
/// a gate changes it exactly when it answers `SetDial`, and then to the value
/// it answers with.
pub proof fn lemma_dial_follows_set_dial(m: CalibModel, ticks: u32)
    ensures
        gate_model(m, ticks).1 matches StepView::SetDial(d) ==> d == gate_model(m, ticks).0.dial,
        !(gate_model(m, ticks).1 is SetDial) ==> gate_model(m, ticks).0.dial == m.dial,
{
}

/// A reported correction is the whole error the dial carries against the
/// nominal, and is only ever reported after at least one plausible reading.
pub proof fn lemma_stop_reports_dial_error(m: CalibModel, ticks: u32)
    requires
        m.wf(),
    ensures
        gate_model(m, ticks).1 matches StepView::Stop(Some(p)) ==> {
            &&& gate_model(m, ticks).0.good > 0
            &&& p == spec_correction_ppb(gate_model(m, ticks).0.dial as int, m.nominal as int)
        },
{
}

/// The state a calibration that starts in `m` is in after its first `i`
/// gates, fed the tick counts `ticks` in order.
pub open spec fn state_after(m: CalibModel, ticks: Seq<u32>, i: nat) -> CalibModel
    decreases i,
{
    if i == 0 {
        m
    } else {
        gate_model(state_after(m, ticks, (i - 1) as nat), ticks[i - 1]).0
    }
}

/// The step answered to gate `i` (counted from 0).
pub open spec fn step_at(m: CalibModel, ticks: Seq<u32>, i: nat) -> StepView {
    gate_model(state_after(m, ticks, i), ticks[i as int]).1
}

/// Whether gate `i` was a plausible measurement: a measuring gate whose
/// reading was kept (`Reading::Ppb`). Warmup readings do not count.
pub open spec fn measured_at(m: CalibModel, ticks: Seq<u32>, i: nat) -> bool {
    &&& state_after(m, ticks, i).phase is Measure
    &&& state_after(m, ticks, (i + 1) as nat).last is Ppb
}

/// The dial the first `i` gates last answered with `SetDial`, or the dial of
/// `m` when none of them did.
pub open spec fn last_set_dial(m: CalibModel, ticks: Seq<u32>, i: nat) -> nat
    decreases i,
{
    if i == 0 {
        m.dial
    } else {
        match step_at(m, ticks, (i - 1) as nat) {
            StepView::SetDial(d) => d,
            _ => last_set_dial(m, ticks, (i - 1) as nat),
        }
    }
}

/// Whether none of the first `i` gates answered `Stop`.
pub open spec fn no_stop_before(m: CalibModel, ticks: Seq<u32>, i: nat) -> bool {
    forall|j: nat| j < i ==> !(#[trigger] step_at(m, ticks, j) is Stop)
}

/// Every state along a run is well formed and keeps its nominal.
pub proof fn lemma_run_wf(m: CalibModel, ticks: Seq<u32>, i: nat)
    requires
        m.wf(),
    ensures
        state_after(m, ticks, i).wf(),
        state_after(m, ticks, i).nominal == m.nominal,
    decreases i,
{
    if i > 0 {
        lemma_run_wf(m, ticks, (i - 1) as nat);
        lemma_gate_progress(state_after(m, ticks, (i - 1) as nat), ticks[i - 1]);
    }
}

/// The dial a calibration holds after any number of gates is the one it
/// last answered with `SetDial`, or the dial it started with.
pub proof fn lemma_dial_is_last_set_dial(m: CalibModel, ticks: Seq<u32>, i: nat)
    ensures
        state_after(m, ticks, i).dial == last_set_dial(m, ticks, i),
    decreases i,
{
    if i > 0 {
        lemma_dial_is_last_set_dial(m, ticks, (i - 1) as nat);
        lemma_dial_follows_set_dial(state_after(m, ticks, (i - 1) as nat), ticks[i - 1]);
    }
}

/// Until the first `Stop`, every gate uses up some of the bound.
proof fn lemma_gates_left_shrinks(m: CalibModel, ticks: Seq<u32>, i: nat)
    requires
        m.wf(),
        no_stop_before(m, ticks, i),
    ensures
        state_after(m, ticks, i).gates_left() + i <= m.gates_left(),
    decreases i,
{
    if i > 0 {
        let j = (i - 1) as nat;
        assert(no_stop_before(m, ticks, j));
        lemma_gates_left_shrinks(m, ticks, j);
        lemma_run_wf(m, ticks, j);
        assert(!(step_at(m, ticks, j) is Stop));
        lemma_gate_progress(state_after(m, ticks, j), ticks[i - 1]);
    }
}

/// Calibration always terminates: from any well-formed state, one of the
/// first `gates_left()` gates answers `Stop`, whatever the tick counts are.
pub proof fn lemma_stops_within(m: CalibModel, ticks: Seq<u32>)
    requires
        m.wf(),
    ensures
        exists|k: nat| k < m.gates_left() && #[trigger] step_at(m, ticks, k) is Stop,
{
    let g = m.gates_left();
    if !(exists|k: nat| k < g && #[trigger] step_at(m, ticks, k) is Stop) {
        assert(no_stop_before(m, ticks, g));
        lemma_gates_left_shrinks(m, ticks, g);
        lemma_run_wf(m, ticks, g);
        assert(state_after(m, ticks, g).gates_left() >= 1);
    }
}

/// A new calibration answers `Stop` within `MAX_GATES` gates.
pub proof fn lemma_calibration_terminates(nominal: nat, ticks: Seq<u32>)
    requires
        0 < nominal <= u64::MAX,
        ticks.len() >= MAX_GATES,
    ensures
        exists|k: nat| k < MAX_GATES && #[trigger] step_at(new_model(nominal), ticks, k) is Stop,
{
    assert(new_model(nominal).gates_left() == MAX_GATES);
    lemma_stops_within(new_model(nominal), ticks);
}

/// After a `Stop` the machine stays finished with the dial it stopped on.
proof fn lemma_done_after_stop(m: CalibModel, ticks: Seq<u32>, k: nat, i: nat)
    requires
        m.wf(),
        step_at(m, ticks, k) is Stop,
        i > k,
    ensures
        state_after(m, ticks, i).phase == Phase::Done,
        state_after(m, ticks, i).dial == state_after(m, ticks, k).dial,
    decreases i,
{
    lemma_run_wf(m, ticks, k);
    lemma_gate_progress(state_after(m, ticks, k), ticks[k as int]);
    lemma_dial_follows_set_dial(state_after(m, ticks, k), ticks[k as int]);
    if i > k + 1 {
        lemma_done_after_stop(m, ticks, k, (i - 1) as nat);
    }
}

/// `Stop` is final over a whole run: every gate after the first `Stop`
/// answers `Stop(None)`, records no reading and leaves the dial as it was.
pub proof fn lemma_run_stop_is_final(m: CalibModel, ticks: Seq<u32>, k: nat, i: nat)
    requires
        m.wf(),
        step_at(m, ticks, k) is Stop,
        i > k,
    ensures
        step_at(m, ticks, i) == StepView::Stop(None),
        state_after(m, ticks, (i + 1) as nat).last == Reading::Skipped,
        state_after(m, ticks, (i + 1) as nat).dial == state_after(m, ticks, k).dial,
{
    lemma_done_after_stop(m, ticks, k, i);
}

/// Until the first `Stop`, a new calibration has counted a plausible
/// reading exactly when one of its gates was a plausible measurement, and
/// is not finished.
proof fn lemma_good_counts_measurements(nominal: nat, ticks: Seq<u32>, i: nat)
    requires
        0 < nominal <= u64::MAX,
        no_stop_before(new_model(nominal), ticks, i),
    ensures
        state_after(new_model(nominal), ticks, i).phase != Phase::Done,
        state_after(new_model(nominal), ticks, i).good > 0
            <==> exists|j: nat| j < i && #[trigger] measured_at(new_model(nominal), ticks, j),
    decreases i,
{
    let m = new_model(nominal);
    if i > 0 {
        let j = (i - 1) as nat;
        assert(no_stop_before(m, ticks, j));
        lemma_good_counts_measurements(nominal, ticks, j);
        lemma_run_wf(m, ticks, j);
        assert(!(step_at(m, ticks, j) is Stop));
        let s = state_after(m, ticks, j);
        let s1 = state_after(m, ticks, i);
        assert(s1 == gate_model(s, ticks[j as int]).0);
        if measured_at(m, ticks, j) {
            assert(s1.good > 0);
        } else {
            assert(s1.good == s.good);
        }
        if exists|x: nat| x < i && #[trigger] measured_at(m, ticks, x) {
            let x = choose|x: nat| x < i && #[trigger] measured_at(m, ticks, x);
            if x < j {
                assert(exists|y: nat| y < j && #[trigger] measured_at(m, ticks, y));
            }
        }
        if exists|y: nat| y < j && #[trigger] measured_at(m, ticks, y) {
            let y = choose|y: nat| y < j && #[trigger] measured_at(m, ticks, y);
            assert(y < i && measured_at(m, ticks, y));
        }
    }
}

/// What a calibration reports: the first `Stop` of a run from a new
/// calibration is `Stop(None)` exactly when no gate up to it was a
/// plausible measurement; otherwise it is `Stop(Some(ppb))`, where `ppb` is
/// the whole error that the dial last programmed with `SetDial` carries
/// against the nominal.
pub proof fn lemma_run_result(nominal: nat, ticks: Seq<u32>, k: nat)
    requires
        0 < nominal <= u64::MAX,
        no_stop_before(new_model(nominal), ticks, k),
        step_at(new_model(nominal), ticks, k) is Stop,
    ensures
        step_at(new_model(nominal), ticks, k) == (if exists|j: nat|
            j <= k && #[trigger] measured_at(new_model(nominal), ticks, j) {
            StepView::Stop(
                Some(spec_correction_ppb(last_set_dial(new_model(nominal), ticks, k) as int, nominal as int) as i64),
            )
        } else {
            StepView::Stop(None)
        }),
{
    let m = new_model(nominal);
    lemma_good_counts_measurements(nominal, ticks, k);
    lemma_run_wf(m, ticks, k);
    lemma_dial_is_last_set_dial(m, ticks, k);
    let s = state_after(m, ticks, k);
    let t = ticks[k as int];
    assert(state_after(m, ticks, (k + 1) as nat) == gate_model(s, t).0);
    assert(step_at(m, ticks, k) == gate_model(s, t).1);
    assert(s.nominal == nominal);
    let found = exists|j: nat| j <= k && #[trigger] measured_at(m, ticks, j);
    let before = exists|y: nat| y < k && #[trigger] measured_at(m, ticks, y);
    if before {
        let y = choose|y: nat| y < k && #[trigger] measured_at(m, ticks, y);
        assert(y <= k && measured_at(m, ticks, y));
    }
    if found && !measured_at(m, ticks, k) {
        let j = choose|j: nat| j <= k && #[trigger] measured_at(m, ticks, j);
        assert(j < k);
        assert(before);
    }
    if measured_at(m, ticks, k) {
        assert(found);
    }
    if let Phase::Measure { left, settle } = s.phase {
        if left == 0 {
            assert(!measured_at(m, ticks, k));
            assert(found == before);
        } else {
            let ppb = spec_error_ppb(t as int, s.nominal as int, 1);
            assert(!settle);
            assert(spec_plausible(ppb));
            assert(-TOLERANCE_PPB <= ppb <= TOLERANCE_PPB);
            assert(measured_at(m, ticks, k));
        }
    }
}

impl View for Calibration {
    type V = CalibModel;

    closed spec fn view(&self) -> CalibModel {
        CalibModel {
            nominal: self.nominal@,
            dial: self.dial@,
            phase: self.phase,
            good: self.good as nat,
            last: self.last,
        }
    }
}

impl Calibration {
    #[verifier::type_invariant]
    spec fn inv(self) -> bool {
        self@.wf()
    }

    /// A calibration against `nominal`, the frequency the measured output is
    /// programmed to and so the tick count one gate should see.
    pub fn new(nominal: Frequency) -> (c: Calibration)
        requires
            nominal@ > 0,
        ensures
            c@ == new_model(nominal@),
            c@.wf(),
    {
        proof {
            Frequency::lemma_view_bounded(nominal);
        }
        Calibration {
            nominal,
            dial: nominal,
            phase: Phase::Start,
            good: 0,
            last: Reading::Skipped,
        }
    }

    /// What the machine made of the most recent gate, for logging.
    pub fn last_reading(&self) -> (r: Reading)
        ensures
            r == self@.last,
    {
        self.last
    }

    /// Dial frequency currently programmed into the generator.
    pub fn dial(&self) -> (r: Frequency)
        ensures
            r@ == self@.dial,
    {
        self.dial
    }

    /// Feed one gated tick count and get the next action.
    pub fn gate(&mut self, ticks: u32) -> (r: Step)
        ensures
            old(self)@.wf(),
            final(self)@.wf(),
            (final(self)@, r@) == gate_model(old(self)@, ticks),
    {
        proof {
            use_type_invariant(&*self);
        }
        let nominal = self.nominal;
        let good = self.good;
        let dial = self.dial;
        match self.phase {
            // The first event only tells us that a gate boundary went by. Use
            // it to program the dial; the count itself is meaningless, because
            // the generator was off for some or all of it.
            Phase::Start => {
                *self = Calibration {
                    nominal,
                    dial: nominal,
                    phase: Phase::Warmup { left: WARMUP_GATES },
                    good,
                    last: Reading::Skipped,
                };
                Step::SetDial(nominal)
            },
            // Measure during warmup as well: the number steers nothing, but it
            // is the first sign of life from the generator and worth logging.
            Phase::Warmup { left } => {
                let ppb = calibrate::error_ppb(ticks, nominal, 1);
                let phase = if left <= 1 {
                    Phase::Measure { left: MEASURE_GATES, settle: false }
                } else {
                    Phase::Warmup { left: left - 1 }
                };
                *self = Calibration { nominal, dial, phase, good, last: Reading::Ppb(ppb) };
                Step::Continue
            },
            // Out of gates: take what the dial has accumulated.
            Phase::Measure { left: 0, .. } => {
                *self = Calibration { nominal, dial, phase: self.phase, good, last: Reading::Skipped };
                self.finish()
            },
            Phase::Measure { left, settle } => {
                // The dial moved during or just before this gate, so the count
                // is part old frequency and part new. Discard it, but do not
                // charge it against the budget.
                if settle {
                    *self = Calibration {
                        nominal,
                        dial,
                        phase: Phase::Measure { left, settle: false },
                        good,
                        last: Reading::Skipped,
                    };
                    return Step::Continue;
                }
                let ppb = calibrate::error_ppb(ticks, nominal, 1);

                // A missed or doubled reference tick is not a measurement.
                if !calibrate::plausible(ppb) {
                    *self = Calibration {
                        nominal,
                        dial,
                        phase: Phase::Measure { left: left - 1, settle: false },
                        good,
                        last: Reading::Rejected(ppb),
                    };
                    return Step::Continue;
                }
                // Close enough: stop rather than spend the rest of the budget
                // chasing noise.

                if -TOLERANCE_PPB <= ppb && ppb <= TOLERANCE_PPB {
                    *self = Calibration {
                        nominal,
                        dial,
                        phase: Phase::Done,
                        good: good + 1,
                        last: Reading::Ppb(ppb),
                    };
                    return self.finish();
                }
                let new_dial = calibrate::correct(dial, ppb);
                *self = Calibration {
                    nominal,
                    dial: new_dial,
                    phase: Phase::Measure { left: left - 1, settle: true },
                    good: good + 1,
                    last: Reading::Ppb(ppb),
                };
                Step::SetDial(new_dial)
            },
            // The driver should have dropped us on the previous Stop.
            Phase::Done => {
                *self = Calibration { nominal, dial, phase: Phase::Done, good, last: Reading::Skipped };
                Step::Stop(None)
            },
        }
    }

    fn finish(&mut self) -> (r: Step)
        requires
            old(self)@.good <= MEASURE_GATES,
        ensures
            (final(self)@, r@) == finish_model(old(self)@),
    {
        proof {
            use_type_invariant(&*self);
        }
        *self = Calibration {
            nominal: self.nominal,
            dial: self.dial,
            phase: Phase::Done,
            good: self.good,
            last: self.last,
        };
        // Every gate was rejected: the dial was never touched, so
        // `correction_ppb` would report a confident zero for a run that
        // measured nothing at all.
        if self.good == 0 {
            return Step::Stop(None);
        }
        // What the dial ended up carrying is the whole error: each reading
        // above saw only what was left of it.
        Step::Stop(Some(calibrate::correction_ppb(self.dial, self.nominal)))
    }
}

} // verus!
