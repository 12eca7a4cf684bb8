//! Events queued for the scheduler by the interrupt handlers and tasks.

use vstd::prelude::*;

verus! {

/// A GPS fix: position in microdegrees (WGS84, negative south and west) and
/// UTC time of day.
#[derive(Debug, Clone, Copy, PartialEq, Eq, Structural)]
pub struct GpsFix {
    pub lat_udeg: i32,
    pub lon_udeg: i32,
    pub hours: u8,
    pub minutes: u8,
    /// Whole seconds.
    pub seconds: u8,
}

/// Something the scheduler reacts to.
#[derive(Debug, Clone, Copy, PartialEq, Eq, Structural)]
pub enum Event {
    /// Empty
    NIL,
    /// Multi-purpose heartbeat
    BEAT,
    /// No GPS fix
    NOGPS,
    /// GPS data
    GPS(GpsFix),
    /// Tx result
    TXDONE,
    /// Calibration result: ticks counted over one gate
    CALIB(u32),
}

impl Event {
    pub open spec fn spec_prio(self) -> u8 {
        match self {
            Event::NIL => 0,
            Event::BEAT => 5,
            Event::NOGPS => 20,
            Event::GPS(_) => 20,
            Event::CALIB(_) => 30,
            Event::TXDONE => 30,
        }
    }

    /// Queue priority: higher is served first. Events compare by priority
    /// alone.
    pub fn prio(self) -> (r: u8)
        ensures
            r == self.spec_prio(),
    {
        match self {
            Event::NIL => 0u8,
            Event::BEAT => 5u8,
            Event::NOGPS => 20u8,
            Event::GPS(_) => 20u8,
            Event::CALIB(_) => 30u8,
            Event::TXDONE => 30u8,
        }
    }

    /// Whether `self` is served before `other`.
    pub fn precedes(&self, other: &Event) -> (r: bool)
        ensures
            r == (self.spec_prio() > other.spec_prio()),
    {
        self.prio() > other.prio()
    }

    /// The event's name, for logging.
    pub fn as_str(&self) -> (r: &'static str)
        ensures
            r@ == match *self {
                Event::NIL => "Event::NIL"@,
                Event::NOGPS => "Event::NOGPS"@,
                Event::GPS(_) => "Event::GPS"@,
                Event::CALIB(_) => "Event::CALIB"@,
                Event::TXDONE => "Event::TXDONE"@,
                Event::BEAT => "Event::BEAT"@,
            },
    {
        match self {
            Event::NIL => "Event::NIL",
            Event::NOGPS => "Event::NOGPS",
            Event::GPS(_) => "Event::GPS",
            Event::CALIB(_) => "Event::CALIB",
            Event::TXDONE => "Event::TXDONE",
            Event::BEAT => "Event::BEAT",
        }
    }
}

impl Default for Event {
    fn default() -> (r: Event)
        ensures
            r == Event::NIL,
    {
        Event::NIL
    }
}

/// Serving order: results of work in flight (calibration gates, end of a
/// transmission) first, then GPS news, then heartbeats, then nothing.
pub proof fn lemma_event_order(fix: GpsFix, ticks: u32)
    ensures
        Event::CALIB(ticks).spec_prio() == Event::TXDONE.spec_prio(),
        Event::TXDONE.spec_prio() > Event::GPS(fix).spec_prio(),
        Event::GPS(fix).spec_prio() == Event::NOGPS.spec_prio(),
        Event::NOGPS.spec_prio() > Event::BEAT.spec_prio(),
        Event::BEAT.spec_prio() > Event::NIL.spec_prio(),
{
}

} // verus!
