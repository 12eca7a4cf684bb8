//! Scheduler states and the errors that end a transmit cycle.

use vstd::prelude::*;
use crate::si5351;

verus! {

/// Where the beacon's transmit cycle stands.
#[derive(Debug, Clone, Copy, PartialEq, Eq, Structural)]
pub enum State {
    GpsWait,
    TxWait,
    TxCalib,
    TxActive,
    Error(ErrorState),
}

impl State {
    /// The state's name as shown on a display.
    pub fn as_str(&self) -> (r: &'static str)
        ensures
            r@ == match *self {
                State::GpsWait => "GPS Wait"@,
                State::TxWait => "TX Wait"@,
                State::TxCalib => "Calibration"@,
                State::TxActive => "TX"@,
                State::Error(_) => "Error"@,
            },
    {
        match self {
            State::GpsWait => "GPS Wait",
            State::TxWait => "TX Wait",
            State::TxCalib => "Calibration",
            State::TxActive => "TX",
            State::Error(_) => "Error",
        }
    }
}

/// Why the beacon fell into its error state.
#[derive(Debug, Clone, Copy, PartialEq, Eq, Structural)]
pub enum ErrorState {
    WSPRTxFailure,
    PPSQueueFailure,
    CalibFailure,
}

impl ErrorState {
    /// The error's description.
    pub fn as_str(&self) -> (r: &'static str)
        ensures
            r@ == match *self {
                ErrorState::CalibFailure => "Calibration failure"@,
                ErrorState::WSPRTxFailure => "WSPR Tx failure"@,
                ErrorState::PPSQueueFailure => "PPS IRQ queue failure"@,
            },
    {
        match self {
            ErrorState::CalibFailure => "Calibration failure",
            ErrorState::WSPRTxFailure => "WSPR Tx failure",
            ErrorState::PPSQueueFailure => "PPS IRQ queue failure",
        }
    }
}

/// What can go wrong in a calibration or a transmission.
#[derive(Debug, Clone, Copy, PartialEq, Eq, Structural)]
pub enum WSPRError {
    Si5351Error(si5351::Error),
    CalibUnexpectedState,
    TxQueueError,
    TxPPSError,
}

impl From<si5351::Error> for WSPRError {
    fn from(e: si5351::Error) -> (r: Self) {
        WSPRError::Si5351Error(e)
    }
}

impl vstd::std_specs::convert::FromSpecImpl<si5351::Error> for WSPRError {
    open spec fn obeys_from_spec() -> bool {
        true
    }

    open spec fn from_spec(v: si5351::Error) -> WSPRError {
        WSPRError::Si5351Error(v)
    }
}

} // verus!
