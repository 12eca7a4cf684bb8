use wspr_beacon::beacon::calibration::{Calibration, Step};
use wspr_beacon::beacon::frame::{Transmission, TxAction, TxEvent, TxPhase, PPS_WAIT_US};
use wspr_beacon::beacon::states::{ErrorState, State, WSPRError};
use wspr_beacon::beacon::status::{Status, WSPR_SYMBOLS};
use wspr_beacon::beacon::transmit::{pps_step, symbol_deadline_us, symbol_frequency, PpsAction};
use wspr_beacon::frequency::Frequency;
use wspr_beacon::si5351::{Error, Si5351Device};

fn dial() -> Frequency {
    Frequency::from_hz(14_095_600)
}

fn started(slot: u32) -> Transmission {
    let mut tx = Transmission::new(dial(), slot);
    assert_eq!(tx.step(TxEvent::Poll { gate_open: true, elapsed_us: 1_000 }), TxAction::Sleep);
    assert_eq!(tx.step(TxEvent::Poll { gate_open: false, elapsed_us: 2_000 }), TxAction::ReadMessage);
    tx
}

#[test]
fn a_whole_frame_goes_out_in_order_then_rf_off_then_report() {
    let mut msg = [0u8; WSPR_SYMBOLS];
    for (i, s) in msg.iter_mut().enumerate() {
        *s = (i % 4) as u8;
    }
    let mut tx = started(3);
    let mut action = tx.step(TxEvent::Message { msg: Some(msg), ppb: Some(62_000) });
    for n in 0..WSPR_SYMBOLS {
        assert_eq!(
            action,
            TxAction::Tone {
                freq: symbol_frequency(dial(), 3, msg[n], 62_000),
                deadline_us: symbol_deadline_us(n),
            }
        );
        action = tx.step(TxEvent::Tone(Ok(())));
    }
    assert_eq!(action, TxAction::StopRf);
    assert_eq!(tx.step(TxEvent::RfOff(Ok(()))), TxAction::ReportDone);
    assert_eq!(tx.step(TxEvent::Reported(true)), TxAction::Done);
    assert_eq!(tx.phase(), TxPhase::Finished);
    assert_eq!(tx.step(TxEvent::Reported(true)), TxAction::Ignore);
}

#[test]
fn lost_pps_fails_the_frame() {
    let mut tx = Transmission::new(dial(), 0);
    assert_eq!(
        tx.step(TxEvent::Poll { gate_open: true, elapsed_us: PPS_WAIT_US + 1 }),
        TxAction::Fail(WSPRError::TxPPSError)
    );
    let mut tx = Transmission::new(dial(), 0);
    assert_eq!(tx.step(TxEvent::Poll { gate_open: true, elapsed_us: PPS_WAIT_US }), TxAction::Sleep);
}

#[test]
fn missing_message_only_turns_rf_off() {
    let mut tx = started(0);
    assert_eq!(tx.step(TxEvent::Message { msg: None, ppb: Some(1) }), TxAction::StopRf);
    assert_eq!(tx.step(TxEvent::RfOff(Ok(()))), TxAction::ReportDone);
}

#[test]
fn failures_end_the_frame_with_their_error() {
    let mut tx = started(0);
    tx.step(TxEvent::Message { msg: Some([1u8; WSPR_SYMBOLS]), ppb: Some(0) });
    assert_eq!(
        tx.step(TxEvent::Tone(Err(Error::CommunicationError))),
        TxAction::Fail(WSPRError::Si5351Error(Error::CommunicationError))
    );
    let mut tx = started(0);
    tx.step(TxEvent::Message { msg: None, ppb: None });
    assert_eq!(
        tx.step(TxEvent::RfOff(Err(Error::CommunicationError))),
        TxAction::Fail(WSPRError::Si5351Error(Error::CommunicationError))
    );
    let mut tx = started(0);
    tx.step(TxEvent::Message { msg: None, ppb: None });
    tx.step(TxEvent::RfOff(Ok(())));
    assert_eq!(tx.step(TxEvent::Reported(false)), TxAction::Fail(WSPRError::TxQueueError));
}

#[test]
fn pps_edges_alternate_gates() {
    assert_eq!(pps_step(false, true, 5, 6), PpsAction::OpenGate);
    assert_eq!(pps_step(true, true, 0x98, 0x9a5c), PpsAction::CloseGate { ticks: 10_000_988, queue: true });
    assert_eq!(pps_step(true, false, 0, 7), PpsAction::CloseGate { ticks: 7, queue: false });
}

#[test]
fn failing_enters_the_error_state() {
    let mut s = Status::new();
    s.ppb = Some(5);
    s.fail(ErrorState::PPSQueueFailure);
    assert!(s.state == State::Error(ErrorState::PPSQueueFailure));
    assert_eq!(s.ppb, Some(5));
}

#[test]
fn int_dividers_are_found_for_sixteen_bit_totals() {
    let d = Si5351Device::new_adafruit_module();
    for freq in [14_000u32, 100_000, 1_000_000, 7_000_000, 150_000_000, 200_000_000] {
        let (ms, _) = d.find_int_dividers_for_max_pll_freq(900_000_000, freq).unwrap();
        assert!(ms % 2 == 0 && (6..=1800).contains(&ms));
    }
}

#[test]
fn the_dial_is_the_last_one_set() {
    let nominal = Frequency::from_hz(10_000_000);
    let mut c = Calibration::new(nominal);
    let mut last = nominal;
    for ticks in [0u32, 10_000_620, 10_000_620, 10_000_620, 5, 10_000_300, 10_000_000] {
        if let Step::SetDial(d) = c.gate(ticks) {
            last = d;
        }
        assert_eq!(c.dial(), last);
    }
}
