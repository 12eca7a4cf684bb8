//! Beacon configuration: every knob in one place, as a tree of plain values.

use vstd::prelude::*;
use crate::frequency::Frequency;
use crate::si5351::{ClockOutput, DriveStrength, PLL};

verus! {

/// Number of bands the beacon is built for.
pub const BAND_COUNT: usize = 8;

/// SYSCLK frequency in MHz, which is also cycles per microsecond.
pub const SYSCLK_MHZ: u32 = 32;

/// Root of the configuration tree.
#[derive(Debug, Clone, Copy)]
pub struct Config {
    /// Station identity: who and what is transmitting.
    pub ham: Ham,
    /// Misc software configuration
    pub sw: Sw,
    /// The board this firmware runs on.
    pub hw: Hw,
}

/// Station identity.
#[derive(Debug, Clone, Copy)]
pub struct Ham {
    pub callsign: &'static str,
    /// Bands this beacon is built for, ascending.
    pub bands: [Band; BAND_COUNT],
    /// Index into `bands` of the band in use.
    pub band: usize,
    pub pwr: u8,
    /// Minutes between transmissions. Even, so frames land on the even UTC
    /// minutes receivers listen on; the lower bound is duty cycle, not the
    /// protocol.
    pub tx_period_min: u8,
    /// Calibration runs at second 10 of every minute that is a multiple of
    /// this. The value 2 in `beacon_config` is this library's own choice, not
    /// a protocol figure: calibrating every other minute keeps a correction
    /// no more than two minutes old for each transmit slot.
    pub calib_period_min: u8,
}

/// One WSPR band, named by the USB dial frequency its sub-band is referenced
/// to. Transmissions sit in the 200 Hz window `dial + 1400 .. dial + 1600`.
#[derive(Debug, Clone, Copy)]
pub struct Band {
    pub dial: Frequency,
    /// How the band is named on a display.
    pub name: &'static str,
}

impl Band {
    /// A band from its USB dial frequency in hertz.
    pub fn new(dial_hz: u32, name: &'static str) -> (b: Band)
        ensures
            b.dial@ == dial_hz * 1_000_000,
            b.name == name,
    {
        Band { dial: Frequency::from_hz(dial_hz), name }
    }
}

/// Board-level configuration.
#[derive(Debug, Clone, Copy)]
pub struct Hw {
    pub mcu: Mcu,
    pub gps: Gps,
    pub rf: Rf,
}

/// MCU and clock tree.
#[derive(Debug, Clone, Copy)]
pub struct Mcu {
    /// Crystal freq in MHz
    pub crystal_mhz: u32,
    /// SYSCLK freq in MHz
    pub sysclk_mhz: u32,
    /// PCLK freq in MHz
    pub pclk_mhz: u32,
    /// i2c freq in kHz
    pub i2c_khz: u32,
}

/// GPS receiver.
#[derive(Debug, Clone, Copy)]
pub struct Gps {
    /// GPS module UART bauderate
    pub baudrate: u32,
    /// Size of one half of the double-buffered NMEA DMA buffer.
    pub ublox_len: usize,
}

/// Si5351 clock generator and the RF plan around it.
#[derive(Debug, Clone, Copy)]
pub struct Rf {
    /// Output driving the antenna during a transmission.
    pub wspr_clk: ClockOutput,
    /// Output fed back to the MCU timer input for crystal calibration.
    pub calib_clk: ClockOutput,
    /// Frequency `calib_clk` is programmed to while calibrating; also the
    /// expected tick count of one gate.
    pub nominal: Frequency,
    /// Common PLL for tx and calib
    pub pll: PLL,
    /// PLL is parked here at init and never retuned: transmissions move only
    /// the output MultiSynth. So it has to sit in the 600-900 MHz VCO range
    /// and divide legally into every band in `ham.bands` and into `nominal`.
    pub pll_parked: Frequency,
    /// Output drive strength
    pub drive: DriveStrength,
}

/// Software configuration.
#[derive(Debug, Clone, Copy)]
pub struct Sw {
    pub disp: Disp,
    pub wdg: Watchdog,
}

/// Display misc configuration
#[derive(Debug, Clone, Copy)]
pub struct Disp {
    /// Display poll period
    pub poll_ms: u64,
}

/// Watchdog misc configuration
#[derive(Debug, Clone, Copy)]
pub struct Watchdog {
    /// Watchdog period
    pub period_ms: u32,
    /// Watchdog feed period
    pub feed_ms: u64,
}

/// Whether `b` is the band with USB dial `dial_hz` hertz named `name`.
pub open spec fn is_band(b: Band, dial_hz: int, name: Seq<char>) -> bool {
    b.dial@ == dial_hz * 1_000_000 && b.name@ == name
}

/// The standard WSPR dial frequencies of the bands this beacon is built for,
/// ascending.
pub open spec fn is_bands(bands: Seq<Band>) -> bool {
    &&& bands.len() == BAND_COUNT
    &&& is_band(bands[0], 3_568_600, "3.5MHz / 80m"@)
    &&& is_band(bands[1], 7_038_600, "7MHz / 40m"@)
    &&& is_band(bands[2], 10_138_700, "10MHz / 30m"@)
    &&& is_band(bands[3], 14_095_600, "14MHz / 20m"@)
    &&& is_band(bands[4], 18_104_600, "18MHz / 17m"@)
    &&& is_band(bands[5], 21_094_600, "21MHz / 15m"@)
    &&& is_band(bands[6], 24_924_600, "24MHz / 12m"@)
    &&& is_band(bands[7], 28_124_600, "28MHz / 10m"@)
}

/// The build-time configuration of this beacon.
pub open spec fn is_cfg(c: Config) -> bool {
    &&& c.ham.callsign@ == "R1BRL"@
    &&& is_bands(c.ham.bands@)
    &&& c.ham.band == 3
    &&& c.ham.pwr == 27
    &&& c.ham.tx_period_min == 10
    &&& c.ham.calib_period_min == 2
    &&& c.sw.disp.poll_ms == 250
    &&& c.sw.wdg.period_ms == 10000
    &&& c.sw.wdg.feed_ms == 2000
    &&& c.hw.mcu.crystal_mhz == 8
    &&& c.hw.mcu.sysclk_mhz == SYSCLK_MHZ
    &&& c.hw.mcu.pclk_mhz == 16
    &&& c.hw.mcu.i2c_khz == 400
    &&& c.hw.gps.baudrate == 9600
    &&& c.hw.gps.ublox_len == 2048
    &&& c.hw.rf.wspr_clk == ClockOutput::Clk0
    &&& c.hw.rf.calib_clk == ClockOutput::Clk1
    &&& c.hw.rf.nominal@ == 10_000_000 * 1_000_000
    &&& c.hw.rf.pll == PLL::A
    &&& c.hw.rf.pll_parked@ == 62 * 14_097_100 * 1_000_000
    &&& c.hw.rf.drive == DriveStrength::_8mA
}

/// Bands this beacon is built for, by USB dial frequency, ascending.
///
/// These are the standard WSPR dial frequencies; worth a sanity check against
/// your own reference before the first transmission on a band.
pub fn bands() -> (r: [Band; BAND_COUNT])
    ensures
        is_bands(r@),
{
    [
        Band::new(3_568_600, "3.5MHz / 80m"),
        Band::new(7_038_600, "7MHz / 40m"),
        Band::new(10_138_700, "10MHz / 30m"),  // WARC
        Band::new(14_095_600, "14MHz / 20m"),
        Band::new(18_104_600, "18MHz / 17m"),  // WARC
        Band::new(21_094_600, "21MHz / 15m"),
        Band::new(24_924_600, "24MHz / 12m"),  // WARC
        Band::new(28_124_600, "28MHz / 10m"),
    ]
}

/// The build-time configuration of this beacon.
pub fn beacon_config() -> (c: Config)
    ensures
        is_cfg(c),
{
    Config {
        ham: Ham {
            callsign: "R1BRL",
            bands: bands(),
            band: 3,  // 20m
            pwr: 27,
            tx_period_min: 10,
            calib_period_min: 2,
        },
        sw: Sw { disp: Disp { poll_ms: 250 }, wdg: Watchdog { period_ms: 10000, feed_ms: 2000 } },
        hw: Hw {
            mcu: Mcu { crystal_mhz: 8, sysclk_mhz: SYSCLK_MHZ, pclk_mhz: 16, i2c_khz: 400 },
            gps: Gps { baudrate: 9600, ublox_len: 2048 },
            rf: Rf {
                wspr_clk: ClockOutput::Clk0,
                calib_clk: ClockOutput::Clk1,
                nominal: Frequency::from_hz(10_000_000),
                pll: PLL::A,
                pll_parked: Frequency::from_hz(62 * 14_097_100),
                drive: DriveStrength::_8mA,
            },
        },
    }
}

/// Whether `pll` divides legally into `f`: AN619 2.1.1 allows a fractional
/// MultiSynth divider from 8 to 2048.
pub open spec fn divides_legally(pll: nat, f: nat) -> bool {
    f > 0 && 8 * f <= pll <= 2048 * f
}

/// Whether every band divides legally out of the PLL.
pub open spec fn spec_bands_fit(pll: nat, bands: Seq<Band>) -> bool {
    forall|i: int| 0 <= i < bands.len() ==> divides_legally(pll, #[trigger] bands[i].dial@)
}

/// Whether every band divides legally out of the parked PLL.
///
/// The +1.4..1.6 kHz audio offset shifts the divider by under 10 ppm, so the
/// dial settles the whole sub-band.
pub fn bands_fit(pll: Frequency, bands: &[Band]) -> (r: bool)
    requires
        forall|i: int| 0 <= i < bands@.len() ==> #[trigger] bands@[i].dial@ > 0,
    ensures
        r == spec_bands_fit(pll@, bands@),
{
    let mut i: usize = 0;
    while i < bands.len()
        invariant
            i <= bands@.len(),
            forall|j: int| 0 <= j < bands@.len() ==> #[trigger] bands@[j].dial@ > 0,
            forall|j: int| 0 <= j < i ==> divides_legally(pll@, #[trigger] bands@[j].dial@),
        decreases bands@.len() - i,
    {
        let d: u128 = bands[i].dial.as_microhz() as u128;
        let p: u128 = pll.as_microhz() as u128;
        if p < 8 * d || p > 2048 * d {
            assert(!divides_legally(pll@, bands@[i as int].dial@));
            return false;
        }
        i += 1;
    }
    true
}

/// The build-time configuration is consistent:
/// - the parked PLL serves every band and the calibration output, and sits
///   in the 600-900 MHz VCO range;
/// - WSPR frames start on even UTC minutes, and a transmit period that is
///   even and divides 60 keeps the cadence unbroken across the hour;
/// - the period is at least ten minutes (about 18% duty for a 110.6 s
///   frame);
/// - the watchdog period is within the IWDG maximum, and it is fed twice per
///   the shortest real timeout (2/3 of the period at the fast LSI corner);
/// - the band in use is one of the bands.
pub proof fn lemma_cfg_consistent(c: Config)
    requires
        is_cfg(c),
    ensures
        spec_bands_fit(c.hw.rf.pll_parked@, c.ham.bands@),
        divides_legally(c.hw.rf.pll_parked@, c.hw.rf.nominal@),
        600_000_000 * 1_000_000 <= c.hw.rf.pll_parked@ <= 900_000_000 * 1_000_000,
        c.ham.tx_period_min % 2 == 0 && 60int % (c.ham.tx_period_min as int) == 0,
        c.ham.tx_period_min >= 10,
        c.sw.wdg.period_ms <= 26_214,
        c.sw.wdg.feed_ms * 2 <= c.sw.wdg.period_ms * 2 / 3,
        c.ham.band < c.ham.bands@.len(),
{
    let b = c.ham.bands@;
    let pll = c.hw.rf.pll_parked@;
    assert(pll == 874_020_200_000_000);
    assert forall|i: int| 0 <= i < b.len() implies divides_legally(pll, #[trigger] b[i].dial@) by {
        assert(0 <= i < 8);
        if i == 0 {} else if i == 1 {} else if i == 2 {} else if i == 3 {} else if i == 4 {} else if i == 5 {} else if i == 6 {} else {}
    }
}

} // verus!
