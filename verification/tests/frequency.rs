use wspr_beacon::frequency::Frequency;

#[test]
fn frequency_units() {
    let f = Frequency::from_hz(14_095_600);
    assert_eq!(f.as_microhz(), 14_095_600_000_000);
    assert_eq!(f.as_hz(), 14_095_600);
    assert_eq!(Frequency::from_ratio(12_000, 8192).as_microhz(), 1_464_843);
    assert_eq!(Frequency::from_ratio(36_000, 8192).as_microhz(), 4_394_531);
    assert_eq!(f.plus(Frequency::from_hz(1_400)).as_hz(), 14_097_000);
    assert_eq!(Frequency::from_microhz(1_999_999).as_hz(), 1);
    assert_eq!(Frequency::max_value().as_microhz(), u64::MAX);
}
