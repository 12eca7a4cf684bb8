//! The beacon's scheduler: what each queued event does to the transmit cycle.
//!
//! The interrupt handlers and tasks queue [`Event`]s; the idle loop feeds
//! them here one at a time. Each event moves the state machine and may ask
//! for one piece of outside work - encode a message, spawn the transmission,
//! program or stop the calibration output, turn RF off. The caller performs
//! it and hands the result back ([`Scheduler::encoded`] or
//! [`Scheduler::outcome`]) before the next event.

use vstd::prelude::*;
use crate::beacon::calibration::{gate_model, new_model, CalibModel, Calibration, Step, StepView};
use crate::beacon::config::{beacon_config, is_cfg, Config};
use crate::beacon::events::{Event, GpsFix};
use crate::beacon::qth::{qth_square, square_bytes, validate_spec, Coordinates};
use crate::beacon::states::{ErrorState, State};
use crate::beacon::status::{is_reset_of, Status, Time, WSPR_SYMBOLS};
use crate::frequency::Frequency;

verus! {

/// How long calibration may go without a PPS-gated measurement.
pub const NOPPS_CALIB_MS: u64 = 20_000;

/// Heartbeats without a calibration gate after which calibration is given
/// up: `NOPPS_CALIB_MS` over the heartbeat period.
pub open spec fn nopps_calib_limit() -> int {
    (NOPPS_CALIB_MS / 2000) as int
}

/// Outside work the scheduler asks for.
#[derive(Debug, Clone, Copy, PartialEq, Eq)]
pub enum Action {
    /// Nothing to do.
    Idle,
    /// Encode the WSPR message of this station at this locator square, then
    /// report it with [`Scheduler::encoded`].
    Encode([u8; 4]),
    /// Start the transmission task, then report with [`Scheduler::outcome`].
    SpawnTx,
    /// Program the calibration output to this dial frequency, then report
    /// with [`Scheduler::outcome`].
    SetCalibDial(Frequency),
    /// Disable the calibration output and flush the output enables, then
    /// report with [`Scheduler::outcome`].
    StopCalib,
    /// Disable both RF outputs and flush; a failure changes nothing.
    RfOff,
}

/// An [`Action`] with its frequency in microhertz.
pub enum ActionView {
    Idle,
    Encode(Seq<u8>),
    SpawnTx,
    SetCalibDial(nat),
    StopCalib,
    RfOff,
}

impl View for Action {
    type V = ActionView;

    open spec fn view(&self) -> ActionView {
        match *self {
            Action::Idle => ActionView::Idle,
            Action::Encode(q) => ActionView::Encode(q@),
            Action::SpawnTx => ActionView::SpawnTx,
            Action::SetCalibDial(f) => ActionView::SetCalibDial(f@),
            Action::StopCalib => ActionView::StopCalib,
            Action::RfOff => ActionView::RfOff,
        }
    }
}

/// The outside work whose result the scheduler is waiting for.
#[derive(Debug, Clone, Copy, PartialEq, Eq)]
pub enum Pending {
    Nothing,
    /// A message for this square.
    Encode([u8; 4]),
    /// The transmission task.
    Spawn,
    /// A new calibration dial.
    Dial,
    /// Stopping the calibration output; the calibration's result.
    Stop(Option<i64>),
}

/// A [`Pending`] with its square as a sequence.
pub enum PendingView {
    Nothing,
    Encode(Seq<u8>),
    Spawn,
    Dial,
    Stop(Option<i64>),
}

impl View for Pending {
    type V = PendingView;

    open spec fn view(&self) -> PendingView {
        match *self {
            Pending::Nothing => PendingView::Nothing,
            Pending::Encode(q) => PendingView::Encode(q@),
            Pending::Spawn => PendingView::Spawn,
            Pending::Dial => PendingView::Dial,
            Pending::Stop(r) => PendingView::Stop(r),
        }
    }
}

/// The scheduler's own state, beside the shared [`Status`].
pub struct Scheduler {
    calib: Option<Calibration>,
    nopps_calib_tick: u16,
    calib_gate: bool,
    pending: Pending,
}

/// The state of a [`Scheduler`].
pub struct SchedModel {
    pub calib: Option<CalibModel>,
    pub nopps_calib_tick: u16,
    /// Whether PPS-gated tick counts are wanted (queued as `CALIB` events).
    pub calib_gate: bool,
    pub pending: PendingView,
}

impl View for Scheduler {
    type V = SchedModel;

    closed spec fn view(&self) -> SchedModel {
        SchedModel {
            calib: match self.calib {
                Some(c) => Some(c@),
                None => None,
            },
            nopps_calib_tick: self.nopps_calib_tick,
            calib_gate: self.calib_gate,
            pending: self.pending@,
        }
    }
}

/// `s` with its state replaced.
pub open spec fn with_state(s: Status, state: State) -> Status {
    Status { state, ..s }
}

/// `s` after a reset.
pub open spec fn reset_spec(s: Status) -> Status {
    Status { state: State::GpsWait, qth: None, msg: None, ppb: None, ..s }
}

/// The nominal calibration frequency of the build-time configuration, in
/// microhertz.
pub open spec fn nominal_uhz() -> nat {
    10_000_000 * 1_000_000
}

/// The time of day follows every fix, whatever the state.
pub open spec fn with_event_time(s: Status, e: Event) -> Status {
    match e {
        Event::GPS(f) => Status { time: Some(Time { hours: f.hours, minutes: f.minutes }), ..s },
        _ => s,
    }
}

/// What `e` does, with the scheduler in `m` and the status in `s0`: the new
/// scheduler state, the new status and the outside work asked for.
pub open spec fn on_event_spec(m: SchedModel, s0: Status, e: Event) -> (SchedModel, Status, ActionView) {
    let s = with_event_time(s0, e);
    match s.state {
        State::GpsWait => match e {
            Event::GPS(f) => {
                let c = Coordinates { lat_udeg: f.lat_udeg, lon_udeg: f.lon_udeg };
                if validate_spec(c) is Ok {
                    (SchedModel { pending: PendingView::Encode(square_bytes(c)), ..m }, s, ActionView::Encode(square_bytes(c)))
                } else {
                    (m, s, ActionView::Idle)
                }
            },
            _ => (m, s, ActionView::Idle),
        },
        State::TxWait => match e {
            Event::GPS(f) => if f.seconds == 10 && f.minutes % 2 == 0 {
                (
                    SchedModel { calib: Some(new_model(nominal_uhz())), calib_gate: true, nopps_calib_tick: 0, ..m },
                    with_state(s, State::TxCalib),
                    ActionView::Idle,
                )
            } else if f.seconds == 0 && f.minutes % 10 == 0 && s.ppb is Some {
                (SchedModel { pending: PendingView::Spawn, ..m }, s, ActionView::SpawnTx)
            } else {
                (m, s, ActionView::Idle)
            },
            Event::NOGPS => (m, reset_spec(s), ActionView::Idle),
            _ => (m, s, ActionView::Idle),
        },
        State::TxCalib => match e {
            Event::BEAT => {
                let tick = if m.nopps_calib_tick == u16::MAX { u16::MAX } else { (m.nopps_calib_tick + 1) as u16 };
                (
                    SchedModel { nopps_calib_tick: tick, ..m },
                    if tick >= nopps_calib_limit() { with_state(s, State::Error(ErrorState::CalibFailure)) } else { s },
                    ActionView::Idle,
                )
            },
            Event::CALIB(ticks) => match m.calib {
                Some(c) => {
                    let (c1, step) = gate_model(c, ticks);
                    let m1 = SchedModel { calib: Some(c1), nopps_calib_tick: 0, ..m };
                    match step {
                        StepView::Continue => (m1, s, ActionView::Idle),
                        StepView::SetDial(d) => (SchedModel { pending: PendingView::Dial, ..m1 }, s, ActionView::SetCalibDial(d)),
                        StepView::Stop(r) => (SchedModel { pending: PendingView::Stop(r), ..m1 }, s, ActionView::StopCalib),
                    }
                },
                None => (
                    SchedModel { nopps_calib_tick: 0, ..m },
                    with_state(s, State::Error(ErrorState::CalibFailure)),
                    ActionView::Idle,
                ),
            },
            _ => (m, s, ActionView::Idle),
        },
        State::TxActive => match e {
            Event::TXDONE => (m, reset_spec(s), ActionView::Idle),
            _ => (m, s, ActionView::Idle),
        },
        State::Error(_) => (SchedModel { calib_gate: false, calib: None, ..m }, reset_spec(s), ActionView::RfOff),
    }
}

/// What reporting the encoded message `symbols` does.
pub open spec fn encoded_spec(m: SchedModel, s: Status, symbols: Option<[u8; WSPR_SYMBOLS]>) -> (SchedModel, Status) {
    let m0 = SchedModel { pending: PendingView::Nothing, ..m };
    match m.pending {
        PendingView::Encode(q) => match symbols {
            Some(_) => (m0, Status { msg: symbols, qth: Some(square_of(q)), state: State::TxWait, ..s }),
            None => (m0, s),
        },
        _ => (m0, s),
    }
}

/// The array holding a 4-character square.
pub open spec fn square_of(q: Seq<u8>) -> [u8; 4] {
    choose|a: [u8; 4]| a@ == q
}

/// What reporting the outcome `ok` of the pending work does.
pub open spec fn outcome_spec(m: SchedModel, s: Status, ok: bool) -> (SchedModel, Status) {
    let m0 = SchedModel { pending: PendingView::Nothing, ..m };
    match m.pending {
        PendingView::Spawn => if ok { (m0, with_state(s, State::TxActive)) } else { (m0, s) },
        PendingView::Dial => if ok { (m0, s) } else { (m0, with_state(s, State::Error(ErrorState::CalibFailure))) },
        PendingView::Stop(r) => if ok {
            (
                SchedModel { calib_gate: false, calib: None, ..m0 },
                Status { state: State::TxWait, ppb: r, ..s },
            )
        } else {
            (m0, with_state(s, State::Error(ErrorState::CalibFailure)))
        },
        _ => (m0, s),
    }
}

/// What holds of the transmit cycle between events:
/// - a message and its square exist from the moment a fix is encoded until
///   the cycle is reset;
/// - a transmission only ever runs with a message and a crystal correction;
/// - a calibration object exists exactly while PPS gates are wanted, which
///   is only while calibrating or in the error state that tears it down,
///   and it is well formed and measures against the nominal frequency;
/// - outside work in flight belongs to the state that asked for it.
pub open spec fn cycle_inv(m: SchedModel, s: Status) -> bool {
    &&& (s.state == State::TxWait ==> s.msg is Some && s.qth is Some)
    &&& (s.state == State::TxCalib ==> s.msg is Some && s.qth is Some && m.calib is Some)
    &&& (s.state == State::TxActive ==> s.msg is Some && s.ppb is Some)
    &&& (m.calib is Some <==> m.calib_gate)
    &&& (m.calib_gate ==> s.state == State::TxCalib || s.state is Error)
    &&& (m.calib matches Some(c) ==> c.wf() && c.nominal == nominal_uhz())
    &&& (m.pending is Encode ==> s.state == State::GpsWait && m.pending->Encode_0.len() == 4)
    &&& (m.pending is Spawn ==> s.state == State::TxWait && s.ppb is Some)
    &&& (m.pending is Dial ==> s.state == State::TxCalib)
    &&& (m.pending is Stop ==> s.state == State::TxCalib)
}

/// The cycle invariant holds from a cold start.
pub proof fn lemma_cycle_inv_initial(s: Status)
    requires
        crate::beacon::status::is_cold(s),
    ensures
        cycle_inv(SchedModel { calib: None, nopps_calib_tick: 0, calib_gate: false, pending: PendingView::Nothing }, s),
{
}

/// Every event keeps the cycle invariant.
pub proof fn lemma_on_event_keeps_inv(m: SchedModel, s: Status, e: Event)
    requires
        cycle_inv(m, s),
        m.pending == PendingView::Nothing,
    ensures
        cycle_inv(on_event_spec(m, s, e).0, on_event_spec(m, s, e).1),
{
    if s.state == State::TxCalib {
        if let Event::CALIB(t) = e {
            let c = m.calib->Some_0;
            crate::beacon::calibration::lemma_gate_progress(c, t);
        }
    }
}

/// Reporting the encoded message keeps the cycle invariant.
pub proof fn lemma_encoded_keeps_inv(m: SchedModel, s: Status, symbols: Option<[u8; WSPR_SYMBOLS]>)
    requires
        cycle_inv(m, s),
    ensures
        cycle_inv(encoded_spec(m, s, symbols).0, encoded_spec(m, s, symbols).1),
{
}

/// Reporting an outcome keeps the cycle invariant.
pub proof fn lemma_outcome_keeps_inv(m: SchedModel, s: Status, ok: bool)
    requires
        cycle_inv(m, s),
    ensures
        cycle_inv(outcome_spec(m, s, ok).0, outcome_spec(m, s, ok).1),
{
}

/// A failure raised from outside the scheduler (a lost PPS event, a failed
/// transmission) keeps the cycle invariant.
pub proof fn lemma_failure_keeps_inv(m: SchedModel, s: Status, code: ErrorState)
    requires
        cycle_inv(m, s),
        m.pending == PendingView::Nothing,
    ensures
        cycle_inv(m, with_state(s, State::Error(code))),
{
}

/// A transmission is only asked for with a message to send and a crystal
/// correction to send it with.
pub proof fn lemma_spawn_needs_message_and_correction(m: SchedModel, s: Status, e: Event)
    requires
        cycle_inv(m, s),
        m.pending == PendingView::Nothing,
        on_event_spec(m, s, e).2 is SpawnTx,
    ensures
        s.msg is Some,
        s.ppb is Some,
        s.state == State::TxWait,
{
}

/// Every path out of the transmit cycle ends in a reset: an event that takes
/// the beacon from any other state back to waiting for a fix drops the
/// square, the message and the correction, and keeps the time of day (as
/// updated by the event itself, when it is a fix).
pub proof fn lemma_leaving_cycle_resets(m: SchedModel, s: Status, e: Event)
    requires
        s.state != State::GpsWait,
        on_event_spec(m, s, e).1.state == State::GpsWait,
    ensures
        is_reset_of(on_event_spec(m, s, e).1, with_event_time(s, e)),
{
}

/// The error state tears RF down on the next event, whatever it is: both
/// outputs are switched off, PPS gating stops, the calibration is dropped
/// and the beacon waits for a fresh fix.
pub proof fn lemma_error_recovers(m: SchedModel, s: Status, e: Event)
    requires
        s.state is Error,
    ensures
        on_event_spec(m, s, e).2 is RfOff,
        on_event_spec(m, s, e).1.state == State::GpsWait,
        !on_event_spec(m, s, e).0.calib_gate,
        on_event_spec(m, s, e).0.calib is None,
{
}

/// Calibration cannot hang on a dead PPS: once `nopps_calib_limit()`
/// heartbeats have passed without a gate, the next heartbeat gives up.
pub proof fn lemma_calibration_watchdog(m: SchedModel, s: Status)
    requires
        s.state == State::TxCalib,
        m.nopps_calib_tick + 1 >= nopps_calib_limit(),
    ensures
        on_event_spec(m, s, Event::BEAT).1.state == State::Error(ErrorState::CalibFailure),
{
}

/// The transmit cycle keeps the configured cadence: waiting to transmit, a
/// fix starts a transmission exactly at second 0 of a minute that is a
/// multiple of the configured transmit period, with a crystal correction at
/// hand; and starts a calibration exactly at second 10 of a minute that is
/// a multiple of the configured calibration period.
pub proof fn lemma_tx_wait_follows_config(m: SchedModel, s: Status, f: GpsFix, c: Config)
    requires
        is_cfg(c),
        s.state == State::TxWait,
    ensures
        on_event_spec(m, s, Event::GPS(f)).2 is SpawnTx
            <==> (f.seconds == 0 && f.minutes % c.ham.tx_period_min == 0 && s.ppb is Some),
        on_event_spec(m, s, Event::GPS(f)).1.state == State::TxCalib
            <==> (f.seconds == 10 && f.minutes % c.ham.calib_period_min == 0),
{
}

impl Scheduler {
    /// A scheduler with no calibration in flight and nothing pending.
    pub fn new() -> (r: Scheduler)
        ensures
            r@.calib is None,
            r@.nopps_calib_tick == 0,
            !r@.calib_gate,
            r@.pending == PendingView::Nothing,
    {
        Scheduler { calib: None, nopps_calib_tick: 0, calib_gate: false, pending: Pending::Nothing }
    }

    /// Whether PPS-gated tick counts are wanted, i.e. whether a calibration
    /// is running or being torn down.
    pub fn calib_gate(&self) -> (r: bool)
        ensures
            r == self@.calib_gate,
    {
        self.calib_gate
    }

    /// Whether no outside work is awaiting its result.
    pub fn is_idle(&self) -> (r: bool)
        ensures
            r == (self@.pending == PendingView::Nothing),
    {
        match self.pending {
            Pending::Nothing => true,
            _ => false,
        }
    }

    /// Handle one queued event.
    pub fn on_event(&mut self, status: &mut Status, event: Event) -> (r: Action)
        requires
            old(self)@.pending == PendingView::Nothing,
        ensures
            (final(self)@, *final(status), r@) == on_event_spec(old(self)@, *old(status), event),
    {
        let c = beacon_config();
        if let Event::GPS(fix) = event {
            status.time = Some(Time { hours: fix.hours, minutes: fix.minutes });
        }
        match status.state {
            State::GpsWait => {
                if let Event::GPS(fix) = event {
                    let coords = Coordinates { lat_udeg: fix.lat_udeg, lon_udeg: fix.lon_udeg };
                    let mut qth_buf: [u8; 4] = [0, 0, 0, 0];
                    let ok = qth_square(coords, &mut qth_buf).is_ok();
                    if ok {
                        self.pending = Pending::Encode(qth_buf);
                        return Action::Encode(qth_buf);
                    }
                }
                Action::Idle
            },
            State::TxWait => {
                match event {
                    Event::GPS(fix) => {
                        let sec = fix.seconds;
                        let min = fix.minutes;
                        // Calibrate at :10 of every calib_period_min-th minute.
                        if sec == 10u8 && min % c.ham.calib_period_min == 0 {
                            self.calib_gate = true;
                            self.calib = Some(Calibration::new(c.hw.rf.nominal));
                            status.state = State::TxCalib;
                            self.nopps_calib_tick = 0;
                            return Action::Idle;
                        }
                        // Spawn at :00 so the next PPS edge is the :01 a frame
                        // starts on. tx_period_min is even, which is what keeps
                        // frames on the even minutes receivers listen on.
                        if sec == 0u8 && min % c.ham.tx_period_min == 0 && status.ppb.is_some() {
                            self.pending = Pending::Spawn;
                            return Action::SpawnTx;
                        }
                        Action::Idle
                    },
                    Event::NOGPS => {
                        status.reset();
                        Action::Idle
                    },
                    _ => Action::Idle,
                }
            },
            State::TxCalib => {
                match event {
                    Event::BEAT => {
                        // PPS gates land every 2 s: silence means PPS or the
                        // path to it died, leaving RF up from the first
                        // Step::SetDial.
                        let limit: u64 = NOPPS_CALIB_MS / c.sw.wdg.feed_ms;
                        self.nopps_calib_tick = self.nopps_calib_tick.saturating_add(1);
                        if self.nopps_calib_tick as u64 >= limit {
                            status.state = State::Error(ErrorState::CalibFailure);
                        }
                        Action::Idle
                    },
                    Event::CALIB(ticks) => {
                        self.nopps_calib_tick = 0;
                        match self.calib.take() {
                            Some(mut cal) => {
                                let step = cal.gate(ticks);
                                self.calib = Some(cal);
                                match step {
                                    Step::Continue => Action::Idle,
                                    Step::SetDial(dial) => {
                                        self.pending = Pending::Dial;
                                        Action::SetCalibDial(dial)
                                    },
                                    Step::Stop(result) => {
                                        self.pending = Pending::Stop(result);
                                        Action::StopCalib
                                    },
                                }
                            },
                            None => {
                                // No calibration in flight: nothing sane to do
                                // with the tick.
                                status.state = State::Error(ErrorState::CalibFailure);
                                Action::Idle
                            },
                        }
                    },
                    _ => Action::Idle,
                }
            },
            State::TxActive => {
                if let Event::TXDONE = event {
                    // Start over from a fresh fix before the next transmission
                    status.reset();
                }
                Action::Idle
            },
            State::Error(_) => {
                // Only an attempt: the same I2C path may have just failed.
                self.calib_gate = false;
                self.calib = None;
                status.reset();
                Action::RfOff
            },
        }
    }

    /// Report the message encoded for the pending square: `Some` publishes
    /// the message and its square together and moves on to waiting for the
    /// transmit slot; `None` (an encoding failure) stays waiting for a fix.
    pub fn encoded(&mut self, status: &mut Status, symbols: Option<[u8; WSPR_SYMBOLS]>)
        ensures
            (final(self)@, *final(status)) == encoded_spec(old(self)@, *old(status), symbols),
    {
        if let Pending::Encode(qth) = self.pending {
            if let Some(sym) = symbols {
                assert(square_of(qth@)@ == qth@);
                assert(square_of(qth@) == qth);
                status.msg = Some(sym);
                status.qth = Some(qth);
                status.state = State::TxWait;
            }
        }
        self.pending = Pending::Nothing;
    }

    /// Report whether the pending transmission spawn, dial change or
    /// calibration stop went through.
    pub fn outcome(&mut self, status: &mut Status, ok: bool)
        ensures
            (final(self)@, *final(status)) == outcome_spec(old(self)@, *old(status), ok),
    {
        match self.pending {
            Pending::Spawn => {
                if ok {
                    status.state = State::TxActive;
                }
            },
            Pending::Dial => {
                if !ok {
                    status.state = State::Error(ErrorState::CalibFailure);
                }
            },
            Pending::Stop(result) => {
                if ok {
                    self.calib_gate = false;
                    status.state = State::TxWait;
                    status.ppb = result;
                    self.calib = None;
                } else {
                    status.state = State::Error(ErrorState::CalibFailure);
                }
            },
            _ => {},
        }
        self.pending = Pending::Nothing;
    }
}

/// Whether an event feeds the watchdog: every heartbeat does.
pub fn feeds_watchdog(event: &Event) -> (r: bool)
    ensures
        r == (*event is BEAT),
{
    match event {
        Event::BEAT => true,
        _ => false,
    }
}

/// Whether GPS sentences are decoded in `state`: not while transmitting or
/// calibrating, when the PPS-timed work must not be delayed and the fix
/// would change nothing.
pub fn decodes_gps(state: State) -> (r: bool)
    ensures
        r == !(state == State::TxActive || state == State::TxCalib),
{
    match state {
        State::TxActive | State::TxCalib => false,
        _ => true,
    }
}

} // verus!
