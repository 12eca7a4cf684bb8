use wspr_beacon::si5351::{
    i2c_error, ClockOutput, CrystalLoad, DeviceStatusBits, Error, FeedbackMultisynth, FractionalMultisynth,
    Masks, Multisynth, OutputDivider, Register, Si5351Device, Transfer, ADDRESS, PLL, SYS_INIT,
};

/// Send a plan over a bus that accepts every write, committing as it goes.
fn send_all(dev: &mut Si5351Device, plan: Vec<Transfer>) -> Vec<Vec<u8>> {
    let mut sent = Vec::new();
    for t in plan {
        sent.push(t.bytes.clone());
        dev.commit(t.after);
    }
    sent
}

fn no_masks() -> Masks {
    Masks { clk_enabled: 0, ms_int_mode: 0, ms_src: 0 }
}

#[test]
fn new_device_addresses_and_masks() {
    let d = Si5351Device::new(true, 27_000_000);
    assert_eq!(d.address(), ADDRESS | 1);
    assert_eq!(d.masks(), no_masks());
    let a = Si5351Device::new_adafruit_module();
    assert_eq!(a.address(), 0x60);
    assert_eq!(a.masks(), no_masks());
}

#[test]
fn min_divider_picks_smallest_power_of_two() {
    assert_eq!(OutputDivider::min_divider(0), Ok(OutputDivider::Div1));
    assert_eq!(OutputDivider::min_divider(1), Ok(OutputDivider::Div1));
    assert_eq!(OutputDivider::min_divider(2), Ok(OutputDivider::Div2));
    assert_eq!(OutputDivider::min_divider(3), Ok(OutputDivider::Div4));
    assert_eq!(OutputDivider::min_divider(20), Ok(OutputDivider::Div32));
    assert_eq!(OutputDivider::min_divider(128), Ok(OutputDivider::Div128));
    assert_eq!(OutputDivider::min_divider(129), Err(Error::InvalidParameter));
    assert_eq!(OutputDivider::Div64.divisor(), 64);
    assert_eq!(OutputDivider::Div64.bits(), 6);
}

#[test]
fn multisynth_addresses() {
    assert_eq!(PLL::A.multisynth(), FeedbackMultisynth::MSNA);
    assert_eq!(PLL::B.multisynth(), FeedbackMultisynth::MSNB);
    assert_eq!(FeedbackMultisynth::MSNB.base_addr(), 34);
    assert_eq!(FeedbackMultisynth::MSNB.ix(), 7);
    assert_eq!(Multisynth::MS3.base_addr(), 66);
    assert_eq!(Multisynth::MS3.ix(), 3);
    assert_eq!(Register::CrystalLoad.addr(), 183);
    assert_eq!(ClockOutput::Clk5.register(), Register::Clk5);
    assert_eq!(ClockOutput::Clk7.ix(), 7);
}

#[test]
fn device_status_bits() {
    let s = DeviceStatusBits::from_bits_truncate(0x8F);
    assert_eq!(s.bits(), 0x80);
    assert!(s.contains(SYS_INIT));
    assert!(!DeviceStatusBits::from_bits_truncate(0x70).contains(SYS_INIT));
    assert_eq!(i2c_error(()), Error::CommunicationError);
}

#[test]
fn init_plan_powers_down_every_output() {
    let mut d = Si5351Device::new_adafruit_module();
    let sent = { let p = d.init_adafruit_module(); send_all(&mut d, p) };
    assert_eq!(
        sent,
        vec![
            vec![3, 0xFF],
            vec![16, 0x80],
            vec![17, 0x80],
            vec![18, 0x80],
            vec![19, 0x80],
            vec![20, 0x80],
            vec![21, 0x80],
            vec![22, 0x80],
            vec![23, 0x80],
            vec![183, 0xD2],
        ]
    );
    let sent = { let p = d.init(CrystalLoad::_6); send_all(&mut d, p) };
    assert_eq!(sent[9], vec![183, 0x52]);
}

#[test]
fn dividers_for_common_frequencies() {
    let d = Si5351Device::new_adafruit_module();
    assert_eq!(d.find_int_dividers_for_max_pll_freq(900_000_000, 7_000_000), Ok((128, OutputDivider::Div1)));
    assert_eq!(d.find_int_dividers_for_max_pll_freq(900_000_000, 150_000_000), Ok((6, OutputDivider::Div1)));
    assert_eq!(d.find_int_dividers_for_max_pll_freq(900_000_000, 50_000), Ok((562, OutputDivider::Div32)));
    assert_eq!(d.find_int_dividers_for_max_pll_freq(900_000_000, 1_000_000_000), Ok((6, OutputDivider::Div1)));
    assert_eq!(d.find_pll_coeffs_for_dividers(128, 1_048_575, 7_000_000), Ok((35, 880_803)));
    assert_eq!(d.find_pll_coeffs_for_dividers(128, 0, 7_000_000), Err(Error::InvalidParameter));
    assert_eq!(d.find_pll_coeffs_for_dividers(128, 0x100000, 7_000_000), Err(Error::InvalidParameter));
}

#[test]
fn set_frequency_plan_for_7_mhz() {
    let mut d = Si5351Device::new_adafruit_module();
    let plan = d.set_frequency(PLL::A, ClockOutput::Clk0, 7_000_000).unwrap();
    let sent = send_all(&mut d, plan);
    assert_eq!(
        sent,
        vec![
            vec![26, 255, 255, 0, 15, 235, 248, 81, 235],
            vec![42, 0, 1, 0, 62, 0, 0, 0, 0],
            vec![16, 0x4F],
            vec![177, 0x20],
            vec![3, 0xFE],
        ]
    );
    assert_eq!(d.masks(), Masks { clk_enabled: 0x01, ms_int_mode: 0x01, ms_src: 0 });
}

#[test]
fn set_frequency_plan_from_pll_b() {
    let mut d = Si5351Device::new_adafruit_module();
    let plan = d.set_frequency(PLL::B, ClockOutput::Clk1, 14_000_000).unwrap();
    let sent = send_all(&mut d, plan);
    assert_eq!(sent[0], vec![34, 255, 255, 0, 15, 235, 248, 81, 235]);
    assert_eq!(sent[1], vec![50, 0, 1, 0, 30, 0, 0, 0, 0]);
    assert_eq!(sent[2], vec![17, 0x6F]);
    assert_eq!(sent[3], vec![177, 0x80]);
    assert_eq!(sent[4], vec![3, 0xFD]);
    assert_eq!(d.masks(), Masks { clk_enabled: 0x02, ms_int_mode: 0x02, ms_src: 0x02 });
}

#[test]
fn set_frequency_integer_pll_and_output_divider() {
    let mut d = Si5351Device::new_adafruit_module();
    let plan = d.set_frequency(PLL::A, ClockOutput::Clk0, 10_000_000).unwrap();
    let sent = send_all(&mut d, plan);
    assert_eq!(sent[0], vec![26, 0, 1, 0, 16, 0, 0, 0, 0]);
    assert_eq!(d.masks().ms_int_mode, 0x41);

    let mut d = Si5351Device::new_adafruit_module();
    let plan = d.set_frequency(PLL::A, ClockOutput::Clk0, 50_000).unwrap();
    let sent = send_all(&mut d, plan);
    assert_eq!(sent[0], vec![26, 255, 255, 0, 15, 251, 254, 118, 123]);
    assert_eq!(sent[1], vec![42, 0, 1, 5, 23, 0, 0, 0, 0]);
}

#[test]
fn set_frequency_rejections() {
    let d = Si5351Device::new_adafruit_module();
    // Clk6 and Clk7 have no fractional multisynth.
    assert!(matches!(d.set_frequency(PLL::A, ClockOutput::Clk6, 7_000_000), Err(Error::InvalidParameter)));
    // 4 kHz leaves the PLL below the multiplier range.
    assert!(matches!(d.set_frequency(PLL::A, ClockOutput::Clk0, 4_000), Err(Error::InvalidParameter)));
}

#[test]
fn failed_write_leaves_earlier_masks() {
    // A bus that fails the second write: only the first transfer's masks stick.
    let mut d = Si5351Device::new_adafruit_module();
    let plan = d.set_frequency(PLL::A, ClockOutput::Clk0, 10_000_000).unwrap();
    d.commit(plan[0].after);
    assert_eq!(d.masks(), Masks { clk_enabled: 0, ms_int_mode: 0x40, ms_src: 0 });
}

#[test]
fn single_register_plans() {
    let mut d = Si5351Device::new_adafruit_module();
    d.set_clock_enabled(ClockOutput::Clk2, true);
    d.select_clock_pll(ClockOutput::Clk2, PLL::B);
    assert_eq!(d.masks(), Masks { clk_enabled: 0x04, ms_int_mode: 0, ms_src: 0x04 });
    assert_eq!({ let p = d.flush_output_enabled(); send_all(&mut d, p) }, vec![vec![3, 0xFB]]);
    assert_eq!({ let p = d.flush_clock_control(ClockOutput::Clk2); send_all(&mut d, p) }, vec![vec![18, 0x2F]]);
    assert_eq!({ let p = d.flush_clock_control(ClockOutput::Clk3); send_all(&mut d, p) }, vec![vec![19, 0x8F]]);
    assert_eq!({ let p = d.reset_pll(PLL::B); send_all(&mut d, p) }, vec![vec![177, 0x80]]);
    d.set_clock_enabled(ClockOutput::Clk2, false);
    d.select_clock_pll(ClockOutput::Clk2, PLL::A);
    assert_eq!(d.masks(), no_masks());
}

#[test]
fn multisynth_setup_plans() {
    let mut d = Si5351Device::new_adafruit_module();
    let sent = { let p = d.setup_multisynth(Multisynth::MS0, 100, 3, 7, OutputDivider::Div4).unwrap(); send_all(&mut d, p) };
    assert_eq!(sent, vec![vec![42, 0, 7, 2, 48, 54, 0, 0, 6]]);
    assert_eq!(d.masks().ms_int_mode, 0);
    let sent = { let p = d.setup_multisynth_int(Multisynth::MS0, 100, OutputDivider::Div1).unwrap(); send_all(&mut d, p) };
    assert_eq!(sent.len(), 1);
    assert_eq!(d.masks().ms_int_mode, 0x01);
    assert!(matches!(d.setup_multisynth(Multisynth::MS0, 5, 0, 1, OutputDivider::Div1), Err(Error::InvalidParameter)));
    assert!(matches!(d.setup_multisynth(Multisynth::MS0, 1801, 0, 1, OutputDivider::Div1), Err(Error::InvalidParameter)));
    assert!(matches!(d.setup_multisynth(Multisynth::MS0, 100, 1, 0, OutputDivider::Div1), Err(Error::InvalidParameter)));
    assert!(matches!(d.setup_multisynth(Multisynth::MS0, 100, 0x100000, 1, OutputDivider::Div1), Err(Error::InvalidParameter)));
}

#[test]
fn pll_setup_plans() {
    let mut d = Si5351Device::new_adafruit_module();
    let sent = { let p = d.setup_pll_int(PLL::B, 36).unwrap(); send_all(&mut d, p) };
    assert_eq!(sent, vec![vec![34, 0, 1, 0, 16, 0, 0, 0, 0]]);
    assert_eq!(d.masks().ms_int_mode, 0x80);
    assert!(matches!(d.setup_pll(PLL::A, 14, 0, 1), Err(Error::InvalidParameter)));
    assert!(matches!(d.setup_pll(PLL::A, 91, 0, 1), Err(Error::InvalidParameter)));
    assert!(d.setup_pll(PLL::A, 90, 0, 1).is_ok());
}
