//! What the beacon knows about itself, and the part of it worth showing.

use vstd::prelude::*;
use vstd::string::StringSliceAdditionalSpecFns;
use crate::text::{all_ascii, ascii_chars, ascii_str};
use crate::beacon::config::{beacon_config, is_cfg};
use crate::beacon::states::{ErrorState, State};

verus! {

/// UTC time of day from the GPS, hours and minutes.
/// Seconds are deliberately omitted to avoid frequent redraws.
#[derive(Clone, Copy, PartialEq, Eq, Structural, Debug)]
pub struct Time {
    pub hours: u8,
    pub minutes: u8,
}

impl Time {
    /// `HH:MM`, written into `buf`.
    pub fn hhmm<'a>(&self, buf: &'a mut [u8; 5]) -> (r: &'a str)
        ensures
            final(buf)@ == seq![
                (48 + (self.hours / 10) % 10) as u8,
                (48 + self.hours % 10) as u8,
                58u8,
                (48 + (self.minutes / 10) % 10) as u8,
                (48 + self.minutes % 10) as u8,
            ],
            r@ == ascii_chars(final(buf)@),
    {
        buf[0] = 48u8 + (self.hours / 10) % 10;
        buf[1] = 48u8 + self.hours % 10;
        buf[2] = 58u8;
        buf[3] = 48u8 + (self.minutes / 10) % 10;
        buf[4] = 48u8 + self.minutes % 10;
        assert(all_ascii(buf@));
        match ascii_str(buf) {
            Some(s) => s,
            None => "--:--",
        }
    }
}

/// Symbols in one WSPR transmission.
pub const WSPR_SYMBOLS: usize = 162;

/// Everything the beacon knows about itself:
/// - the state machine's current state
/// - the encoded message waiting to go out
/// - the information worth showing
///
/// Deliberately not `Copy` and not `PartialEq`: the message alone is 162
/// bytes, so a whole-struct copy or compare is never what the caller wants.
/// Readers take the field they need, and the display path takes a
/// [`DisplayInfo`].
pub struct Status {
    pub state: State,
    pub qth: Option<[u8; 4]>,
    pub time: Option<Time>,
    pub msg: Option<[u8; WSPR_SYMBOLS]>,
    pub ppb: Option<i64>,
}

/// Whether `s` is the cold-start status: no fix, nothing to send, nothing to
/// show.
pub open spec fn is_cold(s: Status) -> bool {
    &&& s.state == State::GpsWait
    &&& s.qth is None
    &&& s.time is None
    &&& s.msg is None
    &&& s.ppb is None
}

/// `s` after a reset from `old`: waiting for a fix, with everything derived
/// from the old one dropped and the last time of day kept.
pub open spec fn is_reset_of(s: Status, old: Status) -> bool {
    &&& s.state == State::GpsWait
    &&& s.qth is None
    &&& s.msg is None
    &&& s.ppb is None
    &&& s.time == old.time
}

impl Status {
    /// Cold start: no fix, nothing to send, nothing to show.
    pub fn new() -> (s: Status)
        ensures
            is_cold(s),
    {
        Status { state: State::GpsWait, qth: None, time: None, msg: None, ppb: None }
    }

    /// Back to waiting for a fix, dropping everything derived from the old one.
    ///
    /// Every path out of the transmit cycle ends here - a lost fix, a completed
    /// transmission, an error - because all three leave the same three fields
    /// stale in the same way.
    ///
    /// `time` deliberately survives: the last UTC read from the GPS stays on the panel
    pub fn reset(&mut self)
        ensures
            is_reset_of(*final(self), *old(self)),
    {
        self.state = State::GpsWait;
        self.qth = None;
        self.msg = None;
        self.ppb = None;
    }

    /// Enter the error state `code`, from outside the scheduler (a failed
    /// transmission, a lost PPS event). The scheduler tears RF down and
    /// resets on its next event.
    pub fn fail(&mut self, code: ErrorState)
        ensures
            *final(self) == (Status { state: State::Error(code), ..*old(self) }),
    {
        self.state = State::Error(code);
    }

    /// Snapshot of just the fields a display cares about.
    pub fn display_info(&self) -> (r: DisplayInfo)
        ensures
            r.state == self.state,
            r.band@ == "14MHz / 20m"@,
            r.qth == self.qth,
            r.time == self.time,
    {
        let c = beacon_config();
        DisplayInfo { state: self.state, band: c.ham.bands[c.ham.band].name, qth: self.qth, time: self.time }
    }
}

impl Default for Status {
    fn default() -> (s: Status)
        ensures
            is_cold(s),
    {
        Self::new()
    }
}

/// Small subset of [`Status`] a display backend is shown.
#[derive(Debug, Clone, Copy, PartialEq)]
pub struct DisplayInfo {
    pub state: State,
    /// Build-time today; a per-slot choice once the beacon rotates bands.
    pub band: &'static str,
    pub qth: Option<[u8; 4]>,
    pub time: Option<Time>,
}

impl DisplayInfo {
    /// QTH square as text, once a fix has produced one.
    pub fn qth_str(&self) -> (r: Option<&str>)
        ensures
            r is Some <==> (self.qth matches Some(q) && vstd::utf8::valid_utf8(q@)),
            r matches Some(s) ==> self.qth is Some && s.spec_bytes() == self.qth->0@
                && s@ == vstd::utf8::decode_utf8(self.qth->0@),
            self.qth is Some && all_ascii(self.qth->0@) ==> (r matches Some(s) && s@ == ascii_chars(self.qth->0@)),
    {
        match &self.qth {
            Some(q) => ascii_str(q),
            None => None,
        }
    }
}

} // verus!
