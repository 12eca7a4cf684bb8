use wspr_beacon::beacon::calibration::Step;
use wspr_beacon::beacon::events::{Event, GpsFix};
use wspr_beacon::beacon::scheduler::{decodes_gps, feeds_watchdog, Action, Scheduler};
use wspr_beacon::beacon::states::{ErrorState, State};
use wspr_beacon::beacon::status::{Status, Time, WSPR_SYMBOLS};
use wspr_beacon::frequency::Frequency;

fn fix(minutes: u8, seconds: u8) -> Event {
    // Munich
    Event::GPS(GpsFix { lat_udeg: 48_146_660, lon_udeg: 11_608_330, hours: 12, minutes, seconds })
}

/// Drive a scheduler to TxWait with a message.
fn to_tx_wait(s: &mut Scheduler, st: &mut Status) {
    assert_eq!(s.on_event(st, fix(1, 30)), Action::Encode(*b"JN58"));
    assert!(!s.is_idle());
    s.encoded(st, Some([1u8; WSPR_SYMBOLS]));
    assert!(s.is_idle());
    assert!(st.state == State::TxWait);
    assert_eq!(st.qth, Some(*b"JN58"));
}

#[test]
fn fix_encodes_and_waits_for_slot() {
    let mut s = Scheduler::new();
    let mut st = Status::new();
    to_tx_wait(&mut s, &mut st);
    assert_eq!(st.time, Some(Time { hours: 12, minutes: 1 }));
    assert!(st.msg.is_some());
}

#[test]
fn failed_encoding_keeps_waiting_for_fix() {
    let mut s = Scheduler::new();
    let mut st = Status::new();
    assert_eq!(s.on_event(&mut st, fix(1, 30)), Action::Encode(*b"JN58"));
    s.encoded(&mut st, None);
    assert!(st.state == State::GpsWait);
    assert_eq!(st.qth, None);
    assert!(st.msg.is_none());
}

#[test]
fn out_of_range_fix_is_ignored() {
    let mut s = Scheduler::new();
    let mut st = Status::new();
    let e = Event::GPS(GpsFix { lat_udeg: 95_000_000, lon_udeg: 0, hours: 1, minutes: 2, seconds: 3 });
    assert_eq!(s.on_event(&mut st, e), Action::Idle);
    assert!(st.state == State::GpsWait);
    assert_eq!(st.time, Some(Time { hours: 1, minutes: 2 }));
}

#[test]
fn calibrates_then_transmits_then_resets() {
    let mut s = Scheduler::new();
    let mut st = Status::new();
    to_tx_wait(&mut s, &mut st);

    // No correction yet: the :00 slot is skipped.
    assert_eq!(s.on_event(&mut st, fix(10, 0)), Action::Idle);
    // :10 of an even minute starts calibration.
    assert_eq!(s.on_event(&mut st, fix(12, 10)), Action::Idle);
    assert!(st.state == State::TxCalib);
    assert!(s.calib_gate());

    // First gate programs the nominal dial.
    assert_eq!(s.on_event(&mut st, Event::CALIB(0)), Action::SetCalibDial(Frequency::from_hz(10_000_000)));
    s.outcome(&mut st, true);
    assert_eq!(s.on_event(&mut st, Event::CALIB(10_000_000)), Action::Idle);
    assert_eq!(s.on_event(&mut st, Event::CALIB(10_000_000)), Action::Idle);
    assert_eq!(s.on_event(&mut st, Event::CALIB(10_000_000)), Action::StopCalib);
    s.outcome(&mut st, true);
    assert!(st.state == State::TxWait);
    assert_eq!(st.ppb, Some(0));
    assert!(!s.calib_gate());

    // :00 of a tenth minute with a correction: transmit.
    assert_eq!(s.on_event(&mut st, fix(20, 0)), Action::SpawnTx);
    s.outcome(&mut st, true);
    assert!(st.state == State::TxActive);

    // GPS news does not disturb a transmission.
    assert_eq!(s.on_event(&mut st, Event::NOGPS), Action::Idle);
    assert!(st.state == State::TxActive);
    assert_eq!(s.on_event(&mut st, Event::TXDONE), Action::Idle);
    assert!(st.state == State::GpsWait);
    assert_eq!(st.qth, None);
    assert!(st.msg.is_none());
    assert_eq!(st.ppb, None);
    assert_eq!(st.time, Some(Time { hours: 12, minutes: 20 }));
}

#[test]
fn failed_spawn_keeps_waiting() {
    let mut s = Scheduler::new();
    let mut st = Status::new();
    to_tx_wait(&mut s, &mut st);
    st.ppb = Some(5);
    assert_eq!(s.on_event(&mut st, fix(30, 0)), Action::SpawnTx);
    s.outcome(&mut st, false);
    assert!(st.state == State::TxWait);
}

#[test]
fn lost_fix_in_tx_wait_resets() {
    let mut s = Scheduler::new();
    let mut st = Status::new();
    to_tx_wait(&mut s, &mut st);
    assert_eq!(s.on_event(&mut st, Event::NOGPS), Action::Idle);
    assert!(st.state == State::GpsWait);
    assert_eq!(st.qth, None);
}

#[test]
fn calibration_gives_up_without_pps() {
    let mut s = Scheduler::new();
    let mut st = Status::new();
    to_tx_wait(&mut s, &mut st);
    s.on_event(&mut st, fix(2, 10));
    for _ in 0..9 {
        assert_eq!(s.on_event(&mut st, Event::BEAT), Action::Idle);
        assert!(st.state == State::TxCalib);
    }
    s.on_event(&mut st, Event::BEAT);
    assert!(st.state == State::Error(ErrorState::CalibFailure));
    // The error state turns RF off on the next event and starts over.
    assert_eq!(s.on_event(&mut st, Event::NIL), Action::RfOff);
    assert!(st.state == State::GpsWait);
    assert!(!s.calib_gate());
}

#[test]
fn failed_dial_change_is_a_calibration_failure() {
    let mut s = Scheduler::new();
    let mut st = Status::new();
    to_tx_wait(&mut s, &mut st);
    s.on_event(&mut st, fix(4, 10));
    assert!(matches!(s.on_event(&mut st, Event::CALIB(0)), Action::SetCalibDial(_)));
    s.outcome(&mut st, false);
    assert!(st.state == State::Error(ErrorState::CalibFailure));
}

#[test]
fn failed_stop_is_a_calibration_failure() {
    let mut s = Scheduler::new();
    let mut st = Status::new();
    to_tx_wait(&mut s, &mut st);
    s.on_event(&mut st, fix(4, 10));
    for t in [0u32, 0, 0, 10_000_000] {
        let a = s.on_event(&mut st, Event::CALIB(t));
        if a != Action::Idle {
            s.outcome(&mut st, a != Action::StopCalib);
        }
    }
    assert!(st.state == State::Error(ErrorState::CalibFailure));
    assert_eq!(st.ppb, None);
}

#[test]
fn calibration_runs_the_machine() {
    // The scheduler answers exactly as the calibration machine does.
    let mut s = Scheduler::new();
    let mut st = Status::new();
    to_tx_wait(&mut s, &mut st);
    s.on_event(&mut st, fix(6, 10));
    let mut c = wspr_beacon::beacon::calibration::Calibration::new(Frequency::from_hz(10_000_000));
    for t in [0u32, 10_000_620, 10_000_620, 10_000_620, 1, 10_000_000] {
        let a = s.on_event(&mut st, Event::CALIB(t));
        let expected = match c.gate(t) {
            Step::Continue => Action::Idle,
            Step::SetDial(d) => Action::SetCalibDial(d),
            Step::Stop(_) => Action::StopCalib,
        };
        assert_eq!(a, expected);
        if a != Action::Idle {
            s.outcome(&mut st, true);
        }
    }
    assert!(st.state == State::TxWait);
    let ppb = st.ppb.unwrap();
    assert!((ppb - 62_000).abs() < 100);
}

#[test]
fn heartbeats_feed_the_watchdog() {
    assert!(feeds_watchdog(&Event::BEAT));
    assert!(!feeds_watchdog(&Event::NOGPS));
    assert!(!feeds_watchdog(&Event::CALIB(1)));
}

#[test]
fn gps_is_decoded_outside_transmission_and_calibration() {
    assert!(decodes_gps(State::GpsWait));
    assert!(decodes_gps(State::TxWait));
    assert!(!decodes_gps(State::TxCalib));
    assert!(!decodes_gps(State::TxActive));
    assert!(decodes_gps(State::Error(ErrorState::CalibFailure)));
}
