use wspr_beacon::beacon::config::{bands, bands_fit, beacon_config, Band, BAND_COUNT};
use wspr_beacon::beacon::events::{Event, GpsFix};
use wspr_beacon::beacon::logging::dwt_us;
use wspr_beacon::beacon::states::{ErrorState, State, WSPRError};
use wspr_beacon::beacon::status::{DisplayInfo, Status, Time};
use wspr_beacon::beacon::transmit::{gate_ticks, slot_from_ticks, symbol_deadline_us, symbol_frequency};
use wspr_beacon::calibrate::correct;
use wspr_beacon::frequency::Frequency;
use wspr_beacon::si5351;

#[test]
fn config_values_and_constraints() {
    let c = beacon_config();
    assert_eq!(c.ham.callsign, "R1BRL");
    assert_eq!(c.ham.bands[c.ham.band].name, "14MHz / 20m");
    assert_eq!(c.ham.bands[c.ham.band].dial.as_hz(), 14_095_600);
    assert_eq!(c.hw.rf.pll_parked.as_hz(), 874_020_200);
    assert!(bands_fit(c.hw.rf.pll_parked, &c.ham.bands));
    assert_eq!(bands().len(), BAND_COUNT);
    assert!(c.ham.tx_period_min % 2 == 0 && 60 % c.ham.tx_period_min == 0);
    assert!((c.sw.wdg.feed_ms as u32) * 2 <= c.sw.wdg.period_ms * 2 / 3);
}

#[test]
fn bands_fit_rejects_out_of_range_dividers() {
    let low = [Band::new(100_000_000, "too high")];
    assert!(!bands_fit(Frequency::from_hz(700_000_000), &low));
    let high = [Band::new(100_000, "too low")];
    assert!(!bands_fit(Frequency::from_hz(700_000_000), &high));
    let ok = [Band::new(7_000_000, "ok")];
    assert!(bands_fit(Frequency::from_hz(700_000_000), &ok));
    assert!(bands_fit(Frequency::from_hz(700_000_000), &[]));
}

#[test]
fn bands_fit_takes_the_exact_divider_ratio() {
    // 1 MHz dial: legal from 8 MHz to 2048 MHz of PLL, both ends included.
    let band = [Band::new(1_000_000, "1 MHz")];
    assert!(bands_fit(Frequency::from_hz(2_048_000_000), &band));
    assert!(!bands_fit(Frequency::from_microhz(2_048_000_000_000_001), &band));
    assert!(bands_fit(Frequency::from_hz(8_000_000), &band));
    assert!(!bands_fit(Frequency::from_microhz(7_999_999_999_999), &band));
}

#[test]
fn state_names() {
    assert_eq!(State::GpsWait.as_str(), "GPS Wait");
    assert_eq!(State::TxWait.as_str(), "TX Wait");
    assert_eq!(State::TxCalib.as_str(), "Calibration");
    assert_eq!(State::TxActive.as_str(), "TX");
    assert_eq!(State::Error(ErrorState::CalibFailure).as_str(), "Error");
    assert_eq!(ErrorState::CalibFailure.as_str(), "Calibration failure");
    assert_eq!(ErrorState::WSPRTxFailure.as_str(), "WSPR Tx failure");
    assert_eq!(ErrorState::PPSQueueFailure.as_str(), "PPS IRQ queue failure");
    assert_eq!(WSPRError::from(si5351::Error::CommunicationError), WSPRError::Si5351Error(si5351::Error::CommunicationError));
}

#[test]
fn event_priorities_and_names() {
    let f = GpsFix { lat_udeg: 0, lon_udeg: 0, hours: 0, minutes: 0, seconds: 0 };
    assert_eq!(Event::CALIB(3).prio(), 30);
    assert_eq!(Event::TXDONE.prio(), 30);
    assert_eq!(Event::GPS(f).prio(), 20);
    assert_eq!(Event::NOGPS.prio(), 20);
    assert_eq!(Event::BEAT.prio(), 5);
    assert_eq!(Event::NIL.prio(), 0);
    assert!(Event::TXDONE.precedes(&Event::GPS(f)));
    assert!(!Event::NOGPS.precedes(&Event::GPS(f)));
    assert_eq!(Event::GPS(f).as_str(), "Event::GPS");
    assert_eq!(Event::CALIB(1).as_str(), "Event::CALIB");
    assert_eq!(Event::default(), Event::NIL);
}

#[test]
fn hhmm_formats_time() {
    let mut buf = [0u8; 5];
    assert_eq!(Time { hours: 9, minutes: 5 }.hhmm(&mut buf), "09:05");
    assert_eq!(Time { hours: 23, minutes: 59 }.hhmm(&mut buf), "23:59");
    // Only the last two digits of out-of-range values.
    assert_eq!(Time { hours: 123, minutes: 0 }.hhmm(&mut buf), "23:00");
}

#[test]
fn status_reset_keeps_time() {
    let mut s = Status::new();
    s.state = State::TxActive;
    s.qth = Some(*b"JN58");
    s.time = Some(Time { hours: 1, minutes: 2 });
    s.msg = Some([0u8; 162]);
    s.ppb = Some(7);
    s.reset();
    assert!(s.state == State::GpsWait);
    assert_eq!(s.qth, None);
    assert!(s.msg.is_none());
    assert_eq!(s.ppb, None);
    assert_eq!(s.time, Some(Time { hours: 1, minutes: 2 }));
    let d = Status::default();
    assert!(d.state == State::GpsWait && d.time.is_none());
}

#[test]
fn display_info_snapshot() {
    let mut s = Status::new();
    s.qth = Some(*b"JN58");
    let info: DisplayInfo = s.display_info();
    assert_eq!(info.band, "14MHz / 20m");
    assert_eq!(info.qth_str(), Some("JN58"));
    let mut bad = info;
    bad.qth = Some([0xFF, 0, 0, 0]);
    assert_eq!(bad.qth_str(), None);
    bad.qth = None;
    assert_eq!(bad.qth_str(), None);
}

#[test]
fn dwt_conversion() {
    assert_eq!(dwt_us(32_000), 1_000);
    assert_eq!(dwt_us(31), 0);
}

#[test]
fn slots_and_deadlines() {
    assert_eq!(slot_from_ticks(0), 0);
    assert_eq!(slot_from_ticks(1), 6);
    for t in [2u32, 12345, 99_999, u32::MAX] {
        assert!(slot_from_ticks(t) < 10);
    }
    assert_eq!(symbol_deadline_us(0), 682_666);
    assert_eq!(symbol_deadline_us(1), 1_365_333);
    assert_eq!(symbol_deadline_us(161), 110_592_000);
    assert_eq!(gate_ticks(0x0098, 0x9680), 10_000_000);
}

#[test]
fn symbol_frequencies() {
    let dial = Frequency::from_hz(14_095_600);
    let f0 = symbol_frequency(dial, 0, 0, 0);
    assert_eq!(f0.as_microhz(), 14_097_000_000_000);
    let f3 = symbol_frequency(dial, 9, 3, 0);
    assert_eq!(f3.as_microhz(), 14_095_600_000_000 + 1_580_000_000 + 4_394_531);
    let fc = symbol_frequency(dial, 0, 1, 62_000);
    assert_eq!(fc, correct(Frequency::from_microhz(14_097_001_464_843), 62_000));
}
