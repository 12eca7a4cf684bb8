//! One WSPR transmission as a state machine: wait for the PPS edge the frame
//! starts on, read the message, program each symbol's tone on time, switch
//! RF off and report the end to the scheduler.
//!
//! The transmission task performs the actions (waits, I2C writes, queueing)
//! and answers each with the event it produced; every decision is here.

use vstd::prelude::*;
use crate::beacon::states::WSPRError;
use crate::beacon::status::WSPR_SYMBOLS;
use crate::beacon::transmit::{
    deadline_spec, symbol_deadline_us, symbol_frequency, tone_spec, SLOTS,
};
use crate::calibrate::spec_correct;
use crate::frequency::Frequency;
use crate::si5351;

verus! {

/// Longest wait, in microseconds from the task's start, for the PPS edge a
/// frame starts on.
pub const PPS_WAIT_US: u64 = 1_200_000;

/// Where a transmission stands.
#[derive(Debug, Clone, Copy, PartialEq, Eq, Structural)]
pub enum TxPhase {
    /// Waiting for the PPS edge that starts the frame.
    WaitPps,
    /// The edge has come; the message and correction are to be read.
    Start,
    /// The tone of this symbol is being programmed.
    Symbol(usize),
    /// The frame is over; RF is being switched off.
    RfOff,
    /// RF is off; the end of the transmission is being reported.
    Report,
    /// Nothing left to do.
    Finished,
}

/// What the transmission task saw, in answer to the last action.
#[derive(Debug, Clone, Copy)]
pub enum TxEvent {
    /// After a 1 ms wait: whether the start gate is still open (no PPS edge
    /// yet), and the microseconds since the task started.
    Poll { gate_open: bool, elapsed_us: u64 },
    /// The message and crystal correction, read once the edge has come.
    Message { msg: Option<[u8; WSPR_SYMBOLS]>, ppb: Option<i64> },
    /// The result of programming a tone (and, when it went through, of
    /// waiting until its deadline).
    Tone(Result<(), si5351::Error>),
    /// The result of switching RF off.
    RfOff(Result<(), si5351::Error>),
    /// Whether the end of the transmission was queued for the scheduler.
    Reported(bool),
}

/// What the transmission task must do next.
#[derive(Debug, Clone, Copy, PartialEq, Eq)]
pub enum TxAction {
    /// Wait 1 ms, then answer `Poll`.
    Sleep,
    /// Read the message and correction from the status, then answer
    /// `Message`. The frame's deadlines count from this moment.
    ReadMessage,
    /// Program `freq` on the WSPR output; when that went through, wait until
    /// `deadline_us` after the frame start. Then answer `Tone`.
    Tone { freq: Frequency, deadline_us: u64 },
    /// Disable the WSPR output and flush the output enables, then answer
    /// `RfOff`.
    StopRf,
    /// Queue `TXDONE` for the scheduler, then answer `Reported`.
    ReportDone,
    /// The transmission completed.
    Done,
    /// The transmission failed with this error: try once more to disable the
    /// WSPR output (whatever comes of it) and put the beacon in the error
    /// state `WSPRTxFailure`.
    Fail(WSPRError),
    /// The event does not belong to this phase; nothing to do.
    Ignore,
}

/// A [`TxAction`] with its frequency in microhertz.
pub enum TxActionView {
    Sleep,
    ReadMessage,
    Tone { freq: nat, deadline_us: u64 },
    StopRf,
    ReportDone,
    Done,
    Fail(WSPRError),
    Ignore,
}

impl View for TxAction {
    type V = TxActionView;

    open spec fn view(&self) -> TxActionView {
        match *self {
            TxAction::Sleep => TxActionView::Sleep,
            TxAction::ReadMessage => TxActionView::ReadMessage,
            TxAction::Tone { freq, deadline_us } => TxActionView::Tone { freq: freq@, deadline_us },
            TxAction::StopRf => TxActionView::StopRf,
            TxAction::ReportDone => TxActionView::ReportDone,
            TxAction::Done => TxActionView::Done,
            TxAction::Fail(e) => TxActionView::Fail(e),
            TxAction::Ignore => TxActionView::Ignore,
        }
    }
}

/// One transmission.
pub struct Transmission {
    phase: TxPhase,
    dial: Frequency,
    slot: u32,
    msg: [u8; WSPR_SYMBOLS],
    ppb: i64,
}

/// The state of a [`Transmission`]: dial in microhertz, the symbols and the
/// correction it sends (meaningful once the message has been read).
pub struct TxModel {
    pub phase: TxPhase,
    pub dial: nat,
    pub slot: u32,
    pub msg: Seq<u8>,
    pub ppb: i64,
}

impl TxModel {
    /// The transmissions that can exist: a slot of the sub-band, a dial with
    /// room for the audio offset, a whole message and a symbol index in it.
    pub open spec fn wf(self) -> bool {
        &&& self.slot < SLOTS
        &&& self.dial + 2_000 * 1_000_000 <= u64::MAX
        &&& self.msg.len() == WSPR_SYMBOLS
        &&& (self.phase matches TxPhase::Symbol(n) ==> n < WSPR_SYMBOLS)
    }
}

/// Programming symbol `n` of the message held in `m`: its corrected tone and
/// its deadline.
pub open spec fn tone_action(m: TxModel, n: int) -> TxActionView {
    TxActionView::Tone {
        freq: spec_correct(tone_spec(m.dial as int, m.slot as int, m.msg[n] as int), m.ppb as int) as nat,
        deadline_us: deadline_spec(n) as u64,
    }
}

/// What event `e` does to a transmission in state `m`: its next state and
/// the next action.
pub open spec fn tx_step_spec(m: TxModel, e: TxEvent) -> (TxModel, TxActionView) {
    let finished = TxModel { phase: TxPhase::Finished, ..m };
    match m.phase {
        TxPhase::WaitPps => match e {
            TxEvent::Poll { gate_open, elapsed_us } => if elapsed_us > PPS_WAIT_US {
                (finished, TxActionView::Fail(WSPRError::TxPPSError))
            } else if gate_open {
                (m, TxActionView::Sleep)
            } else {
                (TxModel { phase: TxPhase::Start, ..m }, TxActionView::ReadMessage)
            },
            _ => (m, TxActionView::Ignore),
        },
        TxPhase::Start => match e {
            TxEvent::Message { msg, ppb } => match (msg, ppb) {
                (Some(symbols), Some(p)) => {
                    let m1 = TxModel { phase: TxPhase::Symbol(0), msg: symbols@, ppb: p, ..m };
                    (m1, tone_action(m1, 0))
                },
                _ => (TxModel { phase: TxPhase::RfOff, ..m }, TxActionView::StopRf),
            },
            _ => (m, TxActionView::Ignore),
        },
        TxPhase::Symbol(n) => match e {
            TxEvent::Tone(Ok(())) => if n + 1 < WSPR_SYMBOLS {
                let m1 = TxModel { phase: TxPhase::Symbol((n + 1) as usize), ..m };
                (m1, tone_action(m1, n + 1))
            } else {
                (TxModel { phase: TxPhase::RfOff, ..m }, TxActionView::StopRf)
            },
            TxEvent::Tone(Err(err)) => (finished, TxActionView::Fail(WSPRError::Si5351Error(err))),
            _ => (m, TxActionView::Ignore),
        },
        TxPhase::RfOff => match e {
            TxEvent::RfOff(Ok(())) => (TxModel { phase: TxPhase::Report, ..m }, TxActionView::ReportDone),
            TxEvent::RfOff(Err(err)) => (finished, TxActionView::Fail(WSPRError::Si5351Error(err))),
            _ => (m, TxActionView::Ignore),
        },
        TxPhase::Report => match e {
            TxEvent::Reported(ok) => if ok {
                (finished, TxActionView::Done)
            } else {
                (finished, TxActionView::Fail(WSPRError::TxQueueError))
            },
            _ => (m, TxActionView::Ignore),
        },
        TxPhase::Finished => (m, TxActionView::Ignore),
    }
}

/// Every step keeps a transmission well formed.
pub proof fn lemma_tx_step_wf(m: TxModel, e: TxEvent)
    requires
        m.wf(),
    ensures
        tx_step_spec(m, e).0.wf(),
        tx_step_spec(m, e).0.dial == m.dial,
        tx_step_spec(m, e).0.slot == m.slot,
{
}

/// A frame that cannot start on time fails: once 1.2 s have passed without
/// the PPS edge, the transmission gives up with `TxPPSError`.
pub proof fn lemma_tx_pps_timeout(m: TxModel, gate_open: bool, elapsed_us: u64)
    requires
        m.phase == TxPhase::WaitPps,
        elapsed_us > PPS_WAIT_US,
    ensures
        tx_step_spec(m, TxEvent::Poll { gate_open, elapsed_us }).1 == TxActionView::Fail(WSPRError::TxPPSError),
        tx_step_spec(m, TxEvent::Poll { gate_open, elapsed_us }).0.phase == TxPhase::Finished,
{
}

/// The end of a transmission is reported only with RF off: `ReportDone` is
/// asked for only when switching RF off went through, and `Done` only when
/// that report was queued.
pub proof fn lemma_tx_reports_only_with_rf_off(m: TxModel, e: TxEvent)
    ensures
        tx_step_spec(m, e).1 is ReportDone ==> m.phase == TxPhase::RfOff && e matches TxEvent::RfOff(Ok(_)),
        tx_step_spec(m, e).1 is Done ==> m.phase == TxPhase::Report && e == TxEvent::Reported(true),
{
}

/// Symbols go out in order: the tone programmed in answer to symbol `n`
/// having gone through is symbol `n + 1`'s, and the last symbol is followed
/// by switching RF off.
pub proof fn lemma_tx_symbols_in_order(m: TxModel, n: usize)
    requires
        m.phase == TxPhase::Symbol(n),
    ensures
        n + 1 < WSPR_SYMBOLS ==> tx_step_spec(m, TxEvent::Tone(Ok(()))) == (
            TxModel { phase: TxPhase::Symbol((n + 1) as usize), ..m },
            tone_action(m, n + 1),
        ),
        n + 1 >= WSPR_SYMBOLS ==> tx_step_spec(m, TxEvent::Tone(Ok(()))).1 is StopRf,
{
}

/// Every way a transmission ends leaves it finished, and a finished
/// transmission stays finished and asks for nothing.
pub proof fn lemma_tx_end_is_final(m: TxModel, e: TxEvent, later: TxEvent)
    requires
        tx_step_spec(m, e).1 is Done || tx_step_spec(m, e).1 is Fail,
    ensures
        tx_step_spec(m, e).0.phase == TxPhase::Finished,
        tx_step_spec(tx_step_spec(m, e).0, later) == (tx_step_spec(m, e).0, TxActionView::Ignore),
{
}

impl View for Transmission {
    type V = TxModel;

    closed spec fn view(&self) -> TxModel {
        TxModel { phase: self.phase, dial: self.dial@, slot: self.slot, msg: self.msg@, ppb: self.ppb }
    }
}

impl Transmission {
    #[verifier::type_invariant]
    spec fn inv(self) -> bool {
        self@.wf()
    }

    /// A transmission on `dial` in `slot`, waiting for its PPS edge.
    pub fn new(dial: Frequency, slot: u32) -> (t: Transmission)
        requires
            slot < SLOTS,
            dial@ + 2_000 * 1_000_000 <= u64::MAX,
        ensures
            t@.phase == TxPhase::WaitPps,
            t@.dial == dial@,
            t@.slot == slot,
            t@.wf(),
    {
        Transmission { phase: TxPhase::WaitPps, dial, slot, msg: [0u8; WSPR_SYMBOLS], ppb: 0 }
    }

    /// The phase the transmission is in.
    pub fn phase(&self) -> (r: TxPhase)
        ensures
            r == self@.phase,
    {
        self.phase
    }

    /// The tone of symbol `n` and its deadline.
    fn tone(&self, n: usize) -> (r: TxAction)
        requires
            n < WSPR_SYMBOLS,
        ensures
            r@ == tone_action(self@, n as int),
    {
        proof {
            use_type_invariant(self);
        }
        let freq = symbol_frequency(self.dial, self.slot, self.msg[n], self.ppb);
        let deadline_us = symbol_deadline_us(n);
        TxAction::Tone { freq, deadline_us }
    }

    /// Take the task's answer to the last action and give the next action.
    pub fn step(&mut self, event: TxEvent) -> (r: TxAction)
        ensures
            old(self)@.wf(),
            final(self)@.wf(),
            (final(self)@, r@) == tx_step_spec(old(self)@, event),
    {
        proof {
            use_type_invariant(&*self);
        }
        let dial = self.dial;
        let slot = self.slot;
        let msg = self.msg;
        let ppb = self.ppb;
        match self.phase {
            TxPhase::WaitPps => match event {
                TxEvent::Poll { gate_open, elapsed_us } => {
                    if elapsed_us > PPS_WAIT_US {
                        *self = Transmission { phase: TxPhase::Finished, dial, slot, msg, ppb };
                        TxAction::Fail(WSPRError::TxPPSError)
                    } else if gate_open {
                        TxAction::Sleep
                    } else {
                        *self = Transmission { phase: TxPhase::Start, dial, slot, msg, ppb };
                        TxAction::ReadMessage
                    }
                },
                _ => TxAction::Ignore,
            },
            TxPhase::Start => match event {
                TxEvent::Message { msg: Some(symbols), ppb: Some(p) } => {
                    *self = Transmission { phase: TxPhase::Symbol(0), dial, slot, msg: symbols, ppb: p };
                    self.tone(0)
                },
                TxEvent::Message { .. } => {
                    *self = Transmission { phase: TxPhase::RfOff, dial, slot, msg, ppb };
                    TxAction::StopRf
                },
                _ => TxAction::Ignore,
            },
            TxPhase::Symbol(n) => match event {
                TxEvent::Tone(Ok(())) => {
                    if n + 1 < WSPR_SYMBOLS {
                        *self = Transmission { phase: TxPhase::Symbol(n + 1), dial, slot, msg, ppb };
                        self.tone(n + 1)
                    } else {
                        *self = Transmission { phase: TxPhase::RfOff, dial, slot, msg, ppb };
                        TxAction::StopRf
                    }
                },
                TxEvent::Tone(Err(err)) => {
                    *self = Transmission { phase: TxPhase::Finished, dial, slot, msg, ppb };
                    TxAction::Fail(WSPRError::Si5351Error(err))
                },
                _ => TxAction::Ignore,
            },
            TxPhase::RfOff => match event {
                TxEvent::RfOff(Ok(())) => {
                    *self = Transmission { phase: TxPhase::Report, dial, slot, msg, ppb };
                    TxAction::ReportDone
                },
                TxEvent::RfOff(Err(err)) => {
                    *self = Transmission { phase: TxPhase::Finished, dial, slot, msg, ppb };
                    TxAction::Fail(WSPRError::Si5351Error(err))
                },
                _ => TxAction::Ignore,
            },
            TxPhase::Report => match event {
                TxEvent::Reported(ok) => {
                    *self = Transmission { phase: TxPhase::Finished, dial, slot, msg, ppb };
                    if ok {
                        TxAction::Done
                    } else {
                        TxAction::Fail(WSPRError::TxQueueError)
                    }
                },
                _ => TxAction::Ignore,
            },
            TxPhase::Finished => TxAction::Ignore,
        }
    }
}

} // verus!
