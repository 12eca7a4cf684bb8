use wspr_beacon::beacon::calibration::{Calibration, Reading, Step, MAX_GATES};
use wspr_beacon::calibrate::{correct, correction_ppb, error_ppb, plausible, MAX_PLAUSIBLE_PPB};
use wspr_beacon::frequency::Frequency;

fn nominal() -> Frequency {
    Frequency::from_hz(10_000_000)
}

/// A part running 62 ppm fast until the dial is corrected, then perfect.
fn ticks_for(dial: Frequency) -> u32 {
    if dial == nominal() {
        10_000_620
    } else {
        10_000_000
    }
}

#[test]
fn converges_and_reports_the_dial_error() {
    let mut c = Calibration::new(nominal());
    let mut dial = nominal();
    let mut result = None;

    for _ in 0..16 {
        match c.gate(ticks_for(dial)) {
            Step::Continue => {}
            Step::SetDial(d) => dial = d,
            Step::Stop(r) => {
                result = r;
                break;
            }
        }
    }

    let ppb = result.expect("should have measured something");
    assert!((ppb - 62_000).abs() < 100, "unexpected {} ppb", ppb);
}

#[test]
fn discards_the_gate_that_straddles_a_dial_change() {
    let mut c = Calibration::new(nominal());
    assert_eq!(c.gate(0), Step::SetDial(nominal()));
    assert_eq!(c.gate(10_000_620), Step::Continue); // warmup 1
    assert_eq!(c.gate(10_000_620), Step::Continue); // warmup 2

    // First real measurement moves the dial...
    let dial = match c.gate(10_000_620) {
        Step::SetDial(dial) => dial,
        _ => panic!("expected a correction"),
    };
    assert!(dial < nominal());

    // ...and the next count, however wild, is thrown away rather than
    // charged against the budget or acted on.
    assert_eq!(c.gate(3_000_000), Step::Continue);
    assert_eq!(c.last_reading(), Reading::Skipped);
}

#[test]
fn reports_failure_when_no_gate_was_usable() {
    let mut c = Calibration::new(nominal());
    let mut steps = 0;

    loop {
        match c.gate(20_000_000) {
            // doubled gate: never plausible
            Step::Stop(r) => {
                assert_eq!(r, None);
                break;
            }
            _ => steps += 1,
        }
        assert!(steps < 16, "should have given up");
    }
}

#[test]
fn error_ppb_exact_values() {
    assert_eq!(error_ppb(10_000_620, nominal(), 1), 62_000);
    assert_eq!(error_ppb(9_999_380, nominal(), 1), -62_000);
    assert_eq!(error_ppb(10_000_000, nominal(), 1), 0);
    assert_eq!(error_ppb(20_000_000, nominal(), 2), 0);
    assert_eq!(error_ppb(20_000_000, nominal(), 1), 1_000_000_000);
    // Rounded toward zero on both sides.
    assert_eq!(error_ppb(10_000_001, Frequency::from_hz(3), 1), 3_333_332_666_666_666);
    assert_eq!(error_ppb(1, Frequency::from_hz(3), 1), -666_666_666);
}

#[test]
fn error_ppb_saturates() {
    assert_eq!(error_ppb(u32::MAX, Frequency::from_microhz(1), 1), i64::MAX);
}

#[test]
fn plausible_bounds() {
    assert!(plausible(0));
    assert!(plausible(MAX_PLAUSIBLE_PPB));
    assert!(plausible(-MAX_PLAUSIBLE_PPB));
    assert!(!plausible(MAX_PLAUSIBLE_PPB + 1));
    assert!(!plausible(-MAX_PLAUSIBLE_PPB - 1));
    assert!(!plausible(1_000_000_000));
}

#[test]
fn correct_exact_values() {
    // 10 MHz * 1e9 / (1e9 + 62000), in microhertz, rounded down.
    assert_eq!(correct(nominal(), 62_000).as_microhz(), 9_999_380_038_437);
    assert_eq!(correct(nominal(), 0), nominal());
    assert_eq!(correct(nominal(), -1_000_000_000).as_microhz(), u64::MAX);
    assert_eq!(correct(Frequency::from_microhz(u64::MAX), -500_000_000).as_microhz(), u64::MAX);
}

#[test]
fn correction_inverts_correct() {
    for ppb in [-900_000i64, -62_000, -300, 0, 1, 300, 62_000, 900_000] {
        let dial = correct(nominal(), ppb);
        let back = correction_ppb(dial, nominal());
        assert!((back - ppb).abs() <= 1, "{} came back as {}", ppb, back);
    }
    assert_eq!(correction_ppb(Frequency::from_microhz(0), nominal()), i64::MAX);
}

#[test]
fn converges_within_tolerance_after_one_correction() {
    let mut c = Calibration::new(nominal());
    assert_eq!(c.gate(0), Step::SetDial(nominal()));
    assert_eq!(c.dial(), nominal());
    assert_eq!(c.gate(1), Step::Continue);
    assert!(matches!(c.last_reading(), Reading::Ppb(_)));
    assert_eq!(c.gate(1), Step::Continue);
    // Within 300 ppb: stop at once with the error the dial carries (none).
    assert_eq!(c.gate(10_000_002), Step::Stop(Some(0)));
    assert_eq!(c.last_reading(), Reading::Ppb(200));
    // Finished: every later gate answers Stop(None).
    assert_eq!(c.gate(10_000_620), Step::Stop(None));
    assert_eq!(c.last_reading(), Reading::Skipped);
}

#[test]
fn rejected_gates_are_reported_and_charged() {
    let mut c = Calibration::new(nominal());
    c.gate(0);
    c.gate(0);
    c.gate(0);
    assert_eq!(c.gate(20_000_000), Step::Continue);
    assert_eq!(c.last_reading(), Reading::Rejected(1_000_000_000));
}

#[test]
fn any_tick_sequence_stops_within_max_gates() {
    let patterns: [[u32; 3]; 4] = [
        [10_000_620, 10_000_310, 9_999_000],
        [20_000_000, 0, 10_000_620],
        [10_005_000, 9_995_000, 10_000_100],
        [0, 0, 0],
    ];
    for pat in patterns {
        let mut c = Calibration::new(nominal());
        let mut stopped = false;
        for i in 0..MAX_GATES as usize {
            if let Step::Stop(_) = c.gate(pat[i % 3]) {
                stopped = true;
                break;
            }
        }
        assert!(stopped);
    }
}
