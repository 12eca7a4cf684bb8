//! The driver's own state and the transfer plans of each operation.

use vstd::prelude::*;
use super::{
    ClockOutput, CrystalLoad, Error, FeedbackMultisynth, FractionalMultisynth, Multisynth,
    OutputDivider, Register, ADDRESS, CLK_DRV_8, CLK_PDN, CLK_SRC_MS, FRAC_MAX, MAX_PLL_FREQ,
    MS_INT, MS_SRC, PLL, PLLA_RST, PLLB_RST, PLL_DENOM, XTAL_CL_10, XTAL_CL_6, XTAL_CL_8,
    XTAL_RESERVED,
};

verus! {

/// Per-output bits the driver keeps and flushes to the device: which outputs
/// are enabled, which multisynths run in integer mode, and which outputs take
/// PLL B as their source.
#[derive(Debug, Copy, Clone, Eq, PartialEq, Structural)]
pub struct Masks {
    pub clk_enabled: u8,
    pub ms_int_mode: u8,
    pub ms_src: u8,
}

/// One I2C write: `bytes` (register address first) and the masks the driver
/// holds once the write has gone through.
pub struct Transfer {
    pub bytes: Vec<u8>,
    pub after: Masks,
}

impl View for Transfer {
    type V = (Seq<u8>, Masks);

    open spec fn view(&self) -> (Seq<u8>, Masks) {
        (self.bytes@, self.after)
    }
}

/// A plan: the transfers to send, in order.
pub type PlanView = Seq<(Seq<u8>, Masks)>;

/// Whether an executable plan is the one specified.
pub open spec fn plan_is(r: Result<Vec<Transfer>, Error>, s: Result<PlanView, Error>) -> bool {
    match r {
        Ok(v) => match s {
            Ok(p) => v@.map_values(|t: Transfer| t@) == p,
            Err(_) => false,
        },
        Err(e) => s == Err::<PlanView, Error>(e),
    }
}

/// Whether an executable transfer is the one specified.
pub open spec fn transfer_is(r: Result<Transfer, Error>, s: Result<(Seq<u8>, Masks), Error>) -> bool {
    match r {
        Ok(t) => s == Ok::<(Seq<u8>, Masks), Error>(t@),
        Err(e) => s == Err::<(Seq<u8>, Masks), Error>(e),
    }
}

/// `mask` with bit `ix` set to `on`.
pub open spec fn with_bit(mask: u8, ix: u8, on: bool) -> u8 {
    if on {
        mask | (1u8 << ix)
    } else {
        mask & !(1u8 << ix)
    }
}

/// Whether bit `ix` of `mask` is set.
pub open spec fn bit_set(mask: u8, ix: u8) -> bool {
    mask & (1u8 << ix) != 0
}

/// Setting one bit of a mask sets that bit and leaves the others alone.
pub proof fn lemma_with_bit(mask: u8, ix: u8, on: bool, other: u8)
    requires
        ix < 8,
        other < 8,
    ensures
        bit_set(with_bit(mask, ix, on), ix) == on,
        other != ix ==> bit_set(with_bit(mask, ix, on), other) == bit_set(mask, other),
{
    if on {
        assert(((mask | (1u8 << ix)) & (1u8 << ix) != 0)) by (bit_vector)
            requires ix < 8;
        assert(other != ix ==> (((mask | (1u8 << ix)) & (1u8 << other) != 0) == (mask & (1u8 << other) != 0))) by (bit_vector)
            requires ix < 8, other < 8;
    } else {
        assert(!((mask & !(1u8 << ix)) & (1u8 << ix) != 0)) by (bit_vector)
            requires ix < 8;
        assert(other != ix ==> (((mask & !(1u8 << ix)) & (1u8 << other) != 0) == (mask & (1u8 << other) != 0))) by (bit_vector)
            requires ix < 8, other < 8;
    }
}

/// The single-byte write of `byte` to register `addr`.
pub open spec fn reg_write(addr: u8, byte: u8) -> Seq<u8> {
    seq![addr, byte]
}

/// Multisynth parameter P1 for the divider `int + num / denom` (AN619 3.2).
pub open spec fn ms_p1(whole: int, num: int, denom: int) -> int {
    if num == 0 {
        128 * whole - 512
    } else {
        128 * whole + 128 * num / denom - 512
    }
}

/// Multisynth parameter P2.
pub open spec fn ms_p2(num: int, denom: int) -> int {
    if num == 0 {
        0
    } else {
        128 * num - denom * (128 * num / denom)
    }
}

/// Multisynth parameter P3.
pub open spec fn ms_p3(num: int, denom: int) -> int {
    if num == 0 {
        1
    } else {
        denom
    }
}

/// The eight parameter registers of a multisynth, in register order: P3
/// bits 15:8 and 7:0; P1 bits 17:16 with the R_DIV field; P1 bits 15:8 and
/// 7:0; P3 bits 19:16 over P2 bits 19:16; P2 bits 15:8 and 7:0.
pub open spec fn ms_param_bytes(p1: int, p2: int, p3: int, r_bits: u8) -> Seq<u8> {
    seq![
        ((p3 / 256) % 256) as u8,
        (p3 % 256) as u8,
        (((p1 / 65536) % 4) as u8) | r_bits,
        ((p1 / 256) % 256) as u8,
        (p1 % 256) as u8,
        (((p3 / 65536) % 16) * 16 + (p2 / 65536) % 16) as u8,
        ((p2 / 256) % 256) as u8,
        (p2 % 256) as u8,
    ]
}

/// Writing a multisynth's divider `int + num / denom` with output divider
/// bits `r_bits`: its eight registers from `base`, after which its bit `ix`
/// of the integer-mode mask says whether the divider is an integer.
pub open spec fn ms_config_spec(
    masks: Masks,
    base: u8,
    ix: u8,
    whole: int,
    num: int,
    denom: int,
    r_bits: u8,
) -> Result<(Seq<u8>, Masks), Error> {
    if denom == 0 || num > FRAC_MAX || denom > FRAC_MAX {
        Err(Error::InvalidParameter)
    } else {
        Ok(
            (
                seq![base] + ms_param_bytes(
                    ms_p1(whole, num, denom),
                    ms_p2(num, denom),
                    ms_p3(num, denom),
                    r_bits,
                ),
                Masks { ms_int_mode: with_bit(masks.ms_int_mode, ix, num == 0), ..masks },
            ),
        )
    }
}

/// The control byte of an output: powered down unless enabled, integer mode
/// and PLL B source from the masks, multisynth as source, 8 mA drive.
pub open spec fn clock_control_byte(masks: Masks, ix: u8) -> u8 {
    ((if bit_set(masks.clk_enabled, ix) { 0 } else { CLK_PDN as int }) + (if bit_set(
        masks.ms_int_mode,
        ix,
    ) {
        MS_INT as int
    } else {
        0
    }) + (if bit_set(masks.ms_src, ix) {
        MS_SRC as int
    } else {
        0
    }) + CLK_SRC_MS + CLK_DRV_8) as u8
}

/// The output-enable register is active low: a set bit disables an output.
pub open spec fn output_enable_byte(masks: Masks) -> u8 {
    (255 - masks.clk_enabled) as u8
}

/// The reset bit of a PLL.
pub open spec fn pll_reset_byte(pll: PLL) -> u8 {
    match pll {
        PLL::A => PLLA_RST,
        PLL::B => PLLB_RST,
    }
}

/// The crystal load register value for a load capacitance.
pub open spec fn crystal_load_byte(load: CrystalLoad) -> u8 {
    (XTAL_RESERVED + match load {
        CrystalLoad::_6 => XTAL_CL_6,
        CrystalLoad::_8 => XTAL_CL_8,
        CrystalLoad::_10 => XTAL_CL_10,
    }) as u8
}

/// A plan of a single transfer.
pub open spec fn single(t: Result<(Seq<u8>, Masks), Error>) -> Result<PlanView, Error> {
    match t {
        Ok(t) => Ok(seq![t]),
        Err(e) => Err(e),
    }
}

/// The state of a [`Si5351Device`].
pub struct DeviceModel {
    pub address: u8,
    pub xtal_freq: u32,
    pub masks: Masks,
}

/// Integer dividers for `freq` under a PLL of at most `max_pll_freq`: the
/// total divider (truncated to 16 bits) split into the smallest output
/// divider that brings the multisynth divider under 900, and an even
/// multisynth divider of at least 6; `InvalidParameter` when the output
/// divider would exceed 128 or the multisynth divider 1800.
pub open spec fn int_dividers_spec(max_pll_freq: u32, freq: u32) -> Result<(u16, OutputDivider), Error> {
    let total: int = ((max_pll_freq / freq) % 65536) as int;
    match OutputDivider::spec_min_divider((total / 900) as u16) {
        Err(e) => Err(e),
        Ok(r_div) => {
            let q: int = (total / (2 * r_div.spec_divisor() as int)) * 2;
            let ms_div = if q > 6 { q } else { 6 };
            if ms_div > 1800 {
                Err(Error::InvalidParameter)
            } else {
                Ok((ms_div as u16, r_div))
            }
        },
    }
}

/// PLL coefficients for `freq` at a total divider of `total_div`: the
/// integer multiplier (truncated to 8 bits) and the fraction numerator over
/// `denom`, against a crystal of `xtal` hertz.
pub open spec fn pll_coeffs_spec(xtal: u32, total_div: u32, denom: u32, freq: u32) -> Result<(u8, u32), Error> {
    if denom == 0 || denom > FRAC_MAX {
        Err(Error::InvalidParameter)
    } else {
        let pll_freq: int = freq * total_div;
        Ok((((pll_freq / (xtal as int)) % 256) as u8, ((pll_freq % (xtal as int)) * denom / (xtal as int)) as u32))
    }
}

/// Whether `set_frequency` stays within 32-bit arithmetic for `freq`: the
/// PLL frequency it computes fits a `u32`.
pub open spec fn set_frequency_in_range(freq: u32) -> bool {
    match int_dividers_spec(MAX_PLL_FREQ, freq) {
        Ok((ms_div, r_div)) => freq * (ms_div * r_div.spec_divisor()) <= u32::MAX,
        Err(_) => true,
    }
}

/// The PLL fraction written by `setup_pll`: `mult + num / denom`, after the
/// multiplier range check.
pub open spec fn setup_pll_spec(masks: Masks, pll: PLL, mult: u8, num: u32, denom: u32) -> Result<(Seq<u8>, Masks), Error> {
    if !(15 <= mult <= 90) {
        Err(Error::InvalidParameter)
    } else {
        ms_config_spec(
            masks,
            pll.spec_multisynth().spec_base_addr(),
            pll.spec_multisynth().spec_ix(),
            mult as int,
            num as int,
            denom as int,
            OutputDivider::Div1.spec_bits(),
        )
    }
}

/// The output multisynth written by `setup_multisynth`: `div + num / denom`
/// and the output divider, after the divider range check.
pub open spec fn setup_multisynth_spec(
    masks: Masks,
    ms: Multisynth,
    div: u16,
    num: u32,
    denom: u32,
    r_div: OutputDivider,
) -> Result<(Seq<u8>, Masks), Error> {
    if !(6 <= div <= 1800) {
        Err(Error::InvalidParameter)
    } else {
        ms_config_spec(masks, ms.spec_base_addr(), ms.spec_ix(), div as int, num as int, denom as int, r_div.spec_bits())
    }
}

/// The masks after `select_clock_pll`.
pub open spec fn select_pll_masks(masks: Masks, clk: ClockOutput, pll: PLL) -> Masks {
    Masks { ms_src: with_bit(masks.ms_src, clk.spec_ix(), pll == PLL::B), ..masks }
}

/// The masks after `set_clock_enabled`.
pub open spec fn enable_masks(masks: Masks, clk: ClockOutput, enabled: bool) -> Masks {
    Masks { clk_enabled: with_bit(masks.clk_enabled, clk.spec_ix(), enabled), ..masks }
}

/// The plan of `set_frequency`: program the PLL to the fraction that puts
/// the integer dividers on `freq`, program the output multisynth in integer
/// mode, route and enable the output, flush its control register, reset the
/// PLL and flush the output enables.
pub open spec fn set_frequency_spec(d: DeviceModel, pll: PLL, clk: ClockOutput, freq: u32) -> Result<PlanView, Error> {
    match int_dividers_spec(MAX_PLL_FREQ, freq) {
        Err(e) => Err(e),
        Ok((ms_div, r_div)) => {
            let total = (ms_div * r_div.spec_divisor()) as u32;
            match pll_coeffs_spec(d.xtal_freq, total, PLL_DENOM, freq) {
                Err(e) => Err(e),
                Ok((mult, num)) => match clk.spec_multisynth() {
                    None => Err(Error::InvalidParameter),
                    Some(ms) => match setup_pll_spec(d.masks, pll, mult, num, PLL_DENOM) {
                        Err(e) => Err(e),
                        Ok(t1) => match setup_multisynth_spec(t1.1, ms, ms_div, 0, 1, r_div) {
                            Err(e) => Err(e),
                            Ok(t2) => {
                                let m = enable_masks(select_pll_masks(t2.1, clk, pll), clk, true);
                                Ok(
                                    seq![
                                        t1,
                                        (t2.0, m),
                                        (reg_write(clk.spec_register().spec_addr(), clock_control_byte(m, clk.spec_ix())), m),
                                        (reg_write(Register::PLLReset.spec_addr(), pll_reset_byte(pll)), m),
                                        (reg_write(Register::OutputEnable.spec_addr(), output_enable_byte(m)), m),
                                    ],
                                )
                            },
                        },
                    },
                },
            }
        },
    }
}

/// The plan of `init`: flush the output enables, power every output down and
/// set the crystal load.
pub open spec fn init_spec(d: DeviceModel, load: CrystalLoad) -> PlanView {
    let m = d.masks;
    seq![
        (reg_write(Register::OutputEnable.spec_addr(), output_enable_byte(m)), m),
        (reg_write(Register::Clk0.spec_addr(), CLK_PDN), m),
        (reg_write(Register::Clk1.spec_addr(), CLK_PDN), m),
        (reg_write(Register::Clk2.spec_addr(), CLK_PDN), m),
        (reg_write(Register::Clk3.spec_addr(), CLK_PDN), m),
        (reg_write(Register::Clk4.spec_addr(), CLK_PDN), m),
        (reg_write(Register::Clk5.spec_addr(), CLK_PDN), m),
        (reg_write(Register::Clk6.spec_addr(), CLK_PDN), m),
        (reg_write(Register::Clk7.spec_addr(), CLK_PDN), m),
        (reg_write(Register::CrystalLoad.spec_addr(), crystal_load_byte(load)), m),
    ]
}

/// Driver state of one Si5351: its bus address, its crystal frequency and the
/// per-output masks. Bus traffic is planned here and sent by the owner of
/// the bus; see the module documentation.
pub struct Si5351Device {
    address: u8,
    xtal_freq: u32,
    masks: Masks,
}

impl View for Si5351Device {
    type V = DeviceModel;

    closed spec fn view(&self) -> DeviceModel {
        DeviceModel { address: self.address, xtal_freq: self.xtal_freq, masks: self.masks }
    }
}

impl Si5351Device {
    /// A device at the address selected by `address_bit`, clocked by a crystal
    /// of `xtal_freq` hertz, with every mask clear.
    pub fn new(address_bit: bool, xtal_freq: u32) -> (r: Si5351Device)
        ensures
            r@.address == ADDRESS + (if address_bit { 1int } else { 0 }),
            r@.xtal_freq == xtal_freq,
            r@.masks == (Masks { clk_enabled: 0, ms_int_mode: 0, ms_src: 0 }),
    {
        Si5351Device {
            address: if address_bit { ADDRESS + 1 } else { ADDRESS },
            xtal_freq,
            masks: Masks { clk_enabled: 0, ms_int_mode: 0, ms_src: 0 },
        }
    }

    /// The Adafruit breakout: address pin low, 25 MHz crystal.
    pub fn new_adafruit_module() -> (r: Si5351Device)
        ensures
            r@.address == ADDRESS,
            r@.xtal_freq == 25_000_000,
            r@.masks == (Masks { clk_enabled: 0, ms_int_mode: 0, ms_src: 0 }),
    {
        Self::new(false, 25_000_000)
    }

    /// The device's bus address.
    pub fn address(&self) -> (r: u8)
        ensures
            r == self@.address,
    {
        self.address
    }

    /// The crystal frequency in hertz.
    pub fn xtal_freq(&self) -> (r: u32)
        ensures
            r == self@.xtal_freq,
    {
        self.xtal_freq
    }

    /// The masks the driver holds now.
    pub fn masks(&self) -> (r: Masks)
        ensures
            r == self@.masks,
    {
        self.masks
    }

    /// Take on the masks of a transfer whose write went through.
    pub fn commit(&mut self, masks: Masks)
        ensures
            final(self)@ == (DeviceModel { masks, ..old(self)@ }),
    {
        self.masks = masks;
    }

    /// The single-byte write of `byte` to `reg`.
    fn write_register(&self, reg: Register, byte: u8, after: Masks) -> (r: Transfer)
        ensures
            r@ == (reg_write(reg.spec_addr(), byte), after),
    {
        Transfer { bytes: vec![reg.addr(), byte], after }
    }

    /// The write of a multisynth's eight parameter registers.
    fn write_synth_registers<MS: FractionalMultisynth>(&self, ms: MS, params: [u8; 8], after: Masks) -> (r: Transfer)
        ensures
            r@ == (seq![ms.spec_base_addr()] + params@, after),
    {
        let bytes = vec![
            ms.base_addr(),
            params[0],
            params[1],
            params[2],
            params[3],
            params[4],
            params[5],
            params[6],
            params[7],
        ];
        assert(bytes@ =~= seq![ms.spec_base_addr()] + params@);
        Transfer { bytes, after }
    }

    fn write_ms_config<MS: FractionalMultisynth>(
        &self,
        masks: Masks,
        ms: MS,
        whole: u16,
        frac_num: u32,
        frac_denom: u32,
        r_div: OutputDivider,
    ) -> (r: Result<Transfer, Error>)
        requires
            !(frac_denom == 0 || frac_num > FRAC_MAX || frac_denom > FRAC_MAX)
                ==> ms_p1(whole as int, frac_num as int, frac_denom as int) >= 0,
        ensures
            transfer_is(
                r,
                ms_config_spec(
                    masks,
                    ms.spec_base_addr(),
                    ms.spec_ix(),
                    whole as int,
                    frac_num as int,
                    frac_denom as int,
                    r_div.spec_bits(),
                ),
            ),
    {
        if frac_denom == 0 || frac_num > FRAC_MAX || frac_denom > FRAC_MAX {
            return Err(Error::InvalidParameter);
        }
        let (p1, p2, p3): (u32, u32, u32) = if frac_num == 0 {
            (128 * whole as u32 - 512, 0, 1)
        } else {
            let ratio: u32 = (128u64 * frac_num as u64 / frac_denom as u64) as u32;
            proof {
                assert(ratio <= 128 * frac_num) by (nonlinear_arith)
                    requires ratio == 128 * frac_num / (frac_denom as int), frac_denom >= 1, frac_num >= 0;
                assert(frac_denom * ratio <= 128 * frac_num) by (nonlinear_arith)
                    requires ratio == 128 * frac_num / (frac_denom as int), frac_denom >= 1, frac_num >= 0;
            }
            (128 * whole as u32 + ratio - 512, 128 * frac_num - frac_denom * ratio, frac_denom)
        };
        let ix = ms.ix();
        let int_mode = if frac_num == 0 {
            masks.ms_int_mode | (1u8 << ix)
        } else {
            masks.ms_int_mode & !(1u8 << ix)
        };
        let after = Masks { ms_int_mode: int_mode, ..masks };
        let params: [u8; 8] = [
            ((p3 / 256) % 256) as u8,
            (p3 % 256) as u8,
            (((p1 / 65536) % 4) as u8) | r_div.bits(),
            ((p1 / 256) % 256) as u8,
            (p1 % 256) as u8,
            (((p3 / 65536) % 16) * 16 + (p2 / 65536) % 16) as u8,
            ((p2 / 256) % 256) as u8,
            (p2 % 256) as u8,
        ];
        assert(params@ =~= ms_param_bytes(
            ms_p1(whole as int, frac_num as int, frac_denom as int),
            ms_p2(frac_num as int, frac_denom as int),
            ms_p3(frac_num as int, frac_denom as int),
            r_div.spec_bits(),
        ));
        Ok(self.write_synth_registers(ms, params, after))
    }
    fn output_enable_transfer(&self, masks: Masks) -> (r: Transfer)
        ensures
            r@ == (reg_write(Register::OutputEnable.spec_addr(), output_enable_byte(masks)), masks),
    {
        self.write_register(Register::OutputEnable, 255 - masks.clk_enabled, masks)
    }

    fn clock_control_transfer(&self, masks: Masks, clk: ClockOutput) -> (r: Transfer)
        ensures
            r@ == (reg_write(clk.spec_register().spec_addr(), clock_control_byte(masks, clk.spec_ix())), masks),
    {
        let bit: u8 = 1u8 << clk.ix();
        let pdn: u8 = if masks.clk_enabled & bit != 0 { 0 } else { CLK_PDN };
        let int_mode: u8 = if masks.ms_int_mode & bit == 0 { 0 } else { MS_INT };
        let src: u8 = if masks.ms_src & bit == 0 { 0 } else { MS_SRC };
        let byte: u8 = pdn + int_mode + src + CLK_SRC_MS + CLK_DRV_8;
        self.write_register(clk.register(), byte, masks)
    }

    fn pll_reset_transfer(&self, masks: Masks, pll: PLL) -> (r: Transfer)
        ensures
            r@ == (reg_write(Register::PLLReset.spec_addr(), pll_reset_byte(pll)), masks),
    {
        self.write_register(
            Register::PLLReset,
            match pll {
                PLL::A => PLLA_RST,
                PLL::B => PLLB_RST,
            },
            masks,
        )
    }

    fn pll_transfer(&self, masks: Masks, pll: PLL, mult: u8, num: u32, denom: u32) -> (r: Result<Transfer, Error>)
        ensures
            transfer_is(r, setup_pll_spec(masks, pll, mult, num, denom)),
    {
        if !(15 <= mult && mult <= 90) {
            return Err(Error::InvalidParameter);
        }
        self.write_ms_config(masks, pll.multisynth(), mult as u16, num, denom, OutputDivider::Div1)
    }

    fn multisynth_transfer(
        &self,
        masks: Masks,
        ms: Multisynth,
        div: u16,
        num: u32,
        denom: u32,
        r_div: OutputDivider,
    ) -> (r: Result<Transfer, Error>)
        ensures
            transfer_is(r, setup_multisynth_spec(masks, ms, div, num, denom, r_div)),
    {
        if !(6 <= div && div <= 1800) {
            return Err(Error::InvalidParameter);
        }
        self.write_ms_config(masks, ms, div, num, denom, r_div)
    }

    fn single_plan(t: Result<Transfer, Error>) -> (r: Result<Vec<Transfer>, Error>)
        ensures
            forall|s: Result<(Seq<u8>, Masks), Error>| transfer_is(t, s) ==> plan_is(r, single(s)),
    {
        match t {
            Ok(t) => {
                let mut v: Vec<Transfer> = Vec::new();
                v.push(t);
                assert(v@.map_values(|t: Transfer| t@) =~= seq![t@]);
                Ok(v)
            },
            Err(e) => Err(e),
        }
    }

    /// Plan: power-on initialisation with crystal load `xtal_load`. The owner
    /// of the bus first waits, by reading the device status, until
    /// `SYS_INIT` clears.
    pub fn init(&self, xtal_load: CrystalLoad) -> (r: Vec<Transfer>)
        ensures
            plan_is(Ok(r), Ok(init_spec(self@, xtal_load))),
    {
        let m = self.masks;
        let mut v: Vec<Transfer> = Vec::new();
        v.push(self.output_enable_transfer(m));
        v.push(self.write_register(Register::Clk0, CLK_PDN, m));
        v.push(self.write_register(Register::Clk1, CLK_PDN, m));
        v.push(self.write_register(Register::Clk2, CLK_PDN, m));
        v.push(self.write_register(Register::Clk3, CLK_PDN, m));
        v.push(self.write_register(Register::Clk4, CLK_PDN, m));
        v.push(self.write_register(Register::Clk5, CLK_PDN, m));
        v.push(self.write_register(Register::Clk6, CLK_PDN, m));
        v.push(self.write_register(Register::Clk7, CLK_PDN, m));
        let load: u8 = match xtal_load {
            CrystalLoad::_6 => XTAL_CL_6,
            CrystalLoad::_8 => XTAL_CL_8,
            CrystalLoad::_10 => XTAL_CL_10,
        };
        v.push(self.write_register(Register::CrystalLoad, XTAL_RESERVED + load, m));
        assert(v@.map_values(|t: Transfer| t@) =~= init_spec(self@, xtal_load));
        v
    }

    /// Plan: initialisation of the Adafruit breakout, whose crystal wants a
    /// 10 pF load.
    pub fn init_adafruit_module(&self) -> (r: Vec<Transfer>)
        ensures
            plan_is(Ok(r), Ok(init_spec(self@, CrystalLoad::_10))),
    {
        self.init(CrystalLoad::_10)
    }

    /// Integer multisynth and output dividers that put `freq` as close under
    /// `max_pll_freq` as they can.
    pub fn find_int_dividers_for_max_pll_freq(&self, max_pll_freq: u32, freq: u32) -> (r: Result<(u16, OutputDivider), Error>)
        requires
            freq > 0,
        ensures
            r == int_dividers_spec(max_pll_freq, freq),
            r matches Ok((ms_div, r_div)) ==> 6 <= ms_div <= 1800 && ms_div % 2 == 0,
    {
        let quotient: u32 = max_pll_freq / freq;
        let total_divider: u16 = quotient as u16;
        assert(total_divider == quotient % 65536) by (bit_vector)
            requires total_divider == quotient as u16;
        let r_div = OutputDivider::min_divider(total_divider / 900)?;
        let two_d: u16 = 2 * r_div.divisor() as u16;
        let half: u16 = total_divider / two_d;
        proof {
            assert(half * 2 <= total_divider) by (nonlinear_arith)
                requires half == total_divider / two_d, two_d >= 2;
        }
        let q: u16 = half * 2;
        let ms_div: u16 = if q > 6 { q } else { 6 };
        if ms_div > 1800 {
            return Err(Error::InvalidParameter);
        }
        Ok((ms_div, r_div))
    }

    /// The PLL multiplier and fraction numerator over `denom` that put the
    /// PLL on `freq * total_div`.
    pub fn find_pll_coeffs_for_dividers(&self, total_div: u32, denom: u32, freq: u32) -> (r: Result<(u8, u32), Error>)
        requires
            !(denom == 0 || denom > FRAC_MAX) ==> freq * total_div <= u32::MAX && self@.xtal_freq > 0,
        ensures
            r == pll_coeffs_spec(self@.xtal_freq, total_div, denom, freq),
    {
        if denom == 0 || denom > FRAC_MAX {
            return Err(Error::InvalidParameter);
        }
        let pll_freq: u32 = freq * total_div;
        let whole: u32 = pll_freq / self.xtal_freq;
        let mult: u8 = whole as u8;
        assert(mult == whole % 256) by (bit_vector)
            requires mult == whole as u8;
        let rem: u64 = (pll_freq % self.xtal_freq) as u64;
        proof {
            assert(rem * denom <= (u32::MAX as int) * (u32::MAX as int)) by (nonlinear_arith)
                requires rem <= u32::MAX, denom <= u32::MAX;
            assert(rem * denom / (self.xtal_freq as int) < denom) by (nonlinear_arith)
                requires rem < self.xtal_freq, denom > 0, self.xtal_freq > 0;
        }
        let frac: u32 = (rem * denom as u64 / self.xtal_freq as u64) as u32;
        Ok((mult, frac))
    }

    /// Plan: output `freq` hertz on `clk` from `pll`, with integer output
    /// dividers and a fractional PLL.
    pub fn set_frequency(&self, pll: PLL, clk: ClockOutput, freq: u32) -> (r: Result<Vec<Transfer>, Error>)
        requires
            freq > 0,
            self@.xtal_freq > 0,
            set_frequency_in_range(freq),
        ensures
            plan_is(r, set_frequency_spec(self@, pll, clk, freq)),
    {
        let denom = PLL_DENOM;
        let (ms_divider, r_div) = self.find_int_dividers_for_max_pll_freq(MAX_PLL_FREQ, freq)?;
        let dv: u8 = r_div.divisor();
        proof {
            assert(ms_divider * dv <= 1800 * 255) by (nonlinear_arith)
                requires ms_divider <= 1800, dv <= 255;
        }
        let total_div: u32 = ms_divider as u32 * dv as u32;
        let (mult, num) = self.find_pll_coeffs_for_dividers(total_div, denom, freq)?;
        let ms = match clk {
            ClockOutput::Clk0 => Multisynth::MS0,
            ClockOutput::Clk1 => Multisynth::MS1,
            ClockOutput::Clk2 => Multisynth::MS2,
            ClockOutput::Clk3 => Multisynth::MS3,
            ClockOutput::Clk4 => Multisynth::MS4,
            ClockOutput::Clk5 => Multisynth::MS5,
            ClockOutput::Clk6 | ClockOutput::Clk7 => return Err(Error::InvalidParameter),
        };
        let t1 = self.pll_transfer(self.masks, pll, mult, num, denom)?;
        let t2 = self.multisynth_transfer(t1.after, ms, ms_divider, 0, 1, r_div)?;
        let bit: u8 = 1u8 << clk.ix();
        let src: u8 = match pll {
            PLL::A => t2.after.ms_src & !bit,
            PLL::B => t2.after.ms_src | bit,
        };
        let m = Masks { ms_src: src, clk_enabled: t2.after.clk_enabled | bit, ..t2.after };
        let t2 = Transfer { bytes: t2.bytes, after: m };
        let t3 = self.clock_control_transfer(m, clk);
        let t4 = self.pll_reset_transfer(m, pll);
        let t5 = self.output_enable_transfer(m);
        let mut v: Vec<Transfer> = Vec::new();
        v.push(t1);
        v.push(t2);
        v.push(t3);
        v.push(t4);
        v.push(t5);
        proof {
            let s = set_frequency_spec(self@, pll, clk, freq);
            assert(s is Ok);
            assert(v@.map_values(|t: Transfer| t@) =~= s->Ok_0);
        }
        Ok(v)
    }

    /// Enable or disable `clk` in the driver's mask. Nothing reaches the
    /// device until the next flush.
    pub fn set_clock_enabled(&mut self, clk: ClockOutput, enabled: bool)
        ensures
            final(self)@ == (DeviceModel { masks: enable_masks(old(self)@.masks, clk, enabled), ..old(self)@ }),
    {
        let bit: u8 = 1u8 << clk.ix();
        if enabled {
            self.masks.clk_enabled = self.masks.clk_enabled | bit;
        } else {
            self.masks.clk_enabled = self.masks.clk_enabled & !bit;
        }
    }

    /// Plan: write the output-enable register from the driver's mask.
    pub fn flush_output_enabled(&self) -> (r: Vec<Transfer>)
        ensures
            plan_is(Ok(r), Ok(seq![(reg_write(Register::OutputEnable.spec_addr(), output_enable_byte(self@.masks)), self@.masks)])),
    {
        let t = self.output_enable_transfer(self.masks);
        let mut v: Vec<Transfer> = Vec::new();
        v.push(t);
        assert(v@.map_values(|t: Transfer| t@) =~= seq![t@]);
        v
    }

    /// Plan: write `clk`'s control register from the driver's masks.
    pub fn flush_clock_control(&self, clk: ClockOutput) -> (r: Vec<Transfer>)
        ensures
            plan_is(Ok(r), Ok(seq![(reg_write(clk.spec_register().spec_addr(), clock_control_byte(self@.masks, clk.spec_ix())), self@.masks)])),
    {
        let t = self.clock_control_transfer(self.masks, clk);
        let mut v: Vec<Transfer> = Vec::new();
        v.push(t);
        assert(v@.map_values(|t: Transfer| t@) =~= seq![t@]);
        v
    }

    /// Plan: reset `pll`.
    pub fn reset_pll(&self, pll: PLL) -> (r: Vec<Transfer>)
        ensures
            plan_is(Ok(r), Ok(seq![(reg_write(Register::PLLReset.spec_addr(), pll_reset_byte(pll)), self@.masks)])),
    {
        let t = self.pll_reset_transfer(self.masks, pll);
        let mut v: Vec<Transfer> = Vec::new();
        v.push(t);
        assert(v@.map_values(|t: Transfer| t@) =~= seq![t@]);
        v
    }

    /// Plan: set `pll` to the integer multiple `mult` of the crystal.
    pub fn setup_pll_int(&self, pll: PLL, mult: u8) -> (r: Result<Vec<Transfer>, Error>)
        ensures
            plan_is(r, single(setup_pll_spec(self@.masks, pll, mult, 0, 1))),
    {
        self.setup_pll(pll, mult, 0, 1)
    }

    /// Plan: set `pll` to `mult + num / denom` times the crystal.
    pub fn setup_pll(&self, pll: PLL, mult: u8, num: u32, denom: u32) -> (r: Result<Vec<Transfer>, Error>)
        ensures
            plan_is(r, single(setup_pll_spec(self@.masks, pll, mult, num, denom))),
    {
        Self::single_plan(self.pll_transfer(self.masks, pll, mult, num, denom))
    }

    /// Plan: set multisynth `ms` to the integer divider `mult`, followed by
    /// `r_div`.
    pub fn setup_multisynth_int(&self, ms: Multisynth, mult: u16, r_div: OutputDivider) -> (r: Result<Vec<Transfer>, Error>)
        ensures
            plan_is(r, single(setup_multisynth_spec(self@.masks, ms, mult, 0, 1, r_div))),
    {
        self.setup_multisynth(ms, mult, 0, 1, r_div)
    }

    /// Plan: set multisynth `ms` to the divider `div + num / denom`, followed
    /// by `r_div`.
    pub fn setup_multisynth(
        &self,
        ms: Multisynth,
        div: u16,
        num: u32,
        denom: u32,
        r_div: OutputDivider,
    ) -> (r: Result<Vec<Transfer>, Error>)
        ensures
            plan_is(r, single(setup_multisynth_spec(self@.masks, ms, div, num, denom, r_div))),
    {
        Self::single_plan(self.multisynth_transfer(self.masks, ms, div, num, denom, r_div))
    }

    /// Route `clock` from `pll` in the driver's mask. Nothing reaches the
    /// device until the next flush.
    pub fn select_clock_pll(&mut self, clock: ClockOutput, pll: PLL)
        ensures
            final(self)@ == (DeviceModel { masks: select_pll_masks(old(self)@.masks, clock, pll), ..old(self)@ }),
    {
        let bit: u8 = 1u8 << clock.ix();
        match pll {
            PLL::A => self.masks.ms_src = self.masks.ms_src & !bit,
            PLL::B => self.masks.ms_src = self.masks.ms_src | bit,
        }
    }
}

/// Integer dividers are always found while the total divider fits 16 bits:
/// the multisynth divider is then even and between 6 and 1800.
pub proof fn lemma_int_dividers_in_range(max_pll_freq: u32, freq: u32)
    requires
        freq > 0,
        max_pll_freq / freq <= 65535,
    ensures
        int_dividers_spec(max_pll_freq, freq) matches Ok((ms_div, r_div))
            && 6 <= ms_div <= 1800 && ms_div % 2 == 0,
{
    let total: int = (max_pll_freq / freq) as int;
    assert(total % 65536 == total);
    let q0: int = total / 900;
    assert(q0 <= 72);
    let r = OutputDivider::spec_min_divider(q0 as u16);
    assert(r is Ok);
    let d: int = r->Ok_0.spec_divisor() as int;
    assert(1 <= d <= 128 && d >= q0);
    let q: int = (total / (2 * d)) * 2;
    assert(q <= total / d) by (nonlinear_arith)
        requires d >= 1, total >= 0, q == (total / (2 * d)) * 2;
    assert(total / d <= 1800) by (nonlinear_arith)
        requires d >= 1, d >= q0, q0 == total / 900, total >= 0;
    assert(q % 2 == 0);
}

/// A multisynth divider write is refused exactly for an invalid fraction
/// (zero denominator, or numerator or denominator over 20 bits), and then
/// nothing is written; otherwise it is one write of nine bytes from the
/// multisynth's base register, which changes no mask but the multisynth's
/// integer-mode bit.
pub proof fn lemma_ms_config_shape(masks: Masks, base: u8, ix: u8, whole: int, num: int, denom: int, r_bits: u8, other: u8)
    requires
        ix < 8,
        other < 8,
    ensures
        ms_config_spec(masks, base, ix, whole, num, denom, r_bits) is Err
            <==> (denom == 0 || num > FRAC_MAX || denom > FRAC_MAX),
        ms_config_spec(masks, base, ix, whole, num, denom, r_bits) matches Ok((bytes, after)) ==> {
            &&& bytes.len() == 9
            &&& bytes[0] == base
            &&& after.clk_enabled == masks.clk_enabled
            &&& after.ms_src == masks.ms_src
            &&& bit_set(after.ms_int_mode, ix) == (num == 0)
            &&& (other != ix ==> bit_set(after.ms_int_mode, other) == bit_set(masks.ms_int_mode, other))
        },
{
    lemma_with_bit(masks.ms_int_mode, ix, num == 0, other);
}

/// Initialisation ends by programming the crystal load asked for: its last
/// write goes to register 183 with the reserved bits `0b010010` and the
/// load in bits 7:6 - `0x52` for 6 pF, `0x92` for 8 pF, `0xD2` for 10 pF -
/// so different loads are programmed differently. Every output is powered
/// down first.
pub proof fn lemma_init_programs_crystal_load(d: DeviceModel, load: CrystalLoad)
    ensures
        init_spec(d, load).len() == 10,
        init_spec(d, load)[9].0 == seq![183u8, match load {
            CrystalLoad::_6 => 0x52u8,
            CrystalLoad::_8 => 0x92u8,
            CrystalLoad::_10 => 0xD2u8,
        }],
        forall|other: CrystalLoad| other != load ==> #[trigger] init_spec(d, other)[9].0 != init_spec(d, load)[9].0,
        forall|i: int| 1 <= i <= 8 ==> (#[trigger] init_spec(d, load)[i].0)[1] == 0x80u8,
{
    assert(init_spec(d, CrystalLoad::_6)[9].0[1] == 0x52u8);
    assert(init_spec(d, CrystalLoad::_8)[9].0[1] == 0x92u8);
    assert(init_spec(d, CrystalLoad::_10)[9].0[1] == 0xD2u8);
}

/// A planned `set_frequency` leaves the output routed and running: once all
/// five writes have gone through, `clk` is enabled, takes `pll` as its
/// source and runs its multisynth in integer mode, and every other output's
/// enable and source bits are as they were.
pub proof fn lemma_set_frequency_routes_output(d: DeviceModel, pll: PLL, clk: ClockOutput, freq: u32, other: ClockOutput)
    requires
        set_frequency_spec(d, pll, clk, freq) is Ok,
    ensures
        ({
            let p = set_frequency_spec(d, pll, clk, freq)->Ok_0;
            let m = p[4].1;
            &&& p.len() == 5
            &&& bit_set(m.clk_enabled, clk.spec_ix())
            &&& bit_set(m.ms_src, clk.spec_ix()) == (pll == PLL::B)
            &&& bit_set(m.ms_int_mode, clk.spec_ix())
            &&& (other != clk ==> bit_set(m.clk_enabled, other.spec_ix()) == bit_set(d.masks.clk_enabled, other.spec_ix()))
            &&& (other != clk ==> bit_set(m.ms_src, other.spec_ix()) == bit_set(d.masks.ms_src, other.spec_ix()))
        }),
{
    let ms = clk.spec_multisynth()->Some_0;
    let (ms_div, r_div) = int_dividers_spec(MAX_PLL_FREQ, freq)->Ok_0;
    let total = (ms_div * r_div.spec_divisor()) as u32;
    let (mult, num) = pll_coeffs_spec(d.xtal_freq, total, PLL_DENOM, freq)->Ok_0;
    let t1 = setup_pll_spec(d.masks, pll, mult, num, PLL_DENOM)->Ok_0;
    let t2 = setup_multisynth_spec(t1.1, ms, ms_div, 0, 1, r_div)->Ok_0;
    let ix = clk.spec_ix();
    let fix = pll.spec_multisynth().spec_ix();
    assert(ms.spec_ix() == ix);
    lemma_with_bit(d.masks.ms_int_mode, fix, num == 0, ix);
    lemma_with_bit(t1.1.ms_int_mode, ix, true, ix);
    lemma_with_bit(t2.1.ms_src, ix, pll == PLL::B, other.spec_ix());
    lemma_with_bit(t2.1.clk_enabled, ix, true, other.spec_ix());
    assert(t2.1.ms_src == d.masks.ms_src);
    assert(t2.1.clk_enabled == d.masks.clk_enabled);
    if other != clk {
        assert(other.spec_ix() != ix);
    }
}

/// The PLL coefficients approximate the wanted PLL frequency from below to
/// within one part in `denom` of the crystal: with `q = pll / xtal` fitting
/// the 8-bit multiplier, `xtal * (mult + num / denom) <= pll < xtal * (mult
/// + (num + 1) / denom)`.
pub proof fn lemma_pll_coeffs_accuracy(xtal: u32, total_div: u32, denom: u32, freq: u32)
    requires
        xtal > 0,
        0 < denom <= FRAC_MAX,
        freq * total_div <= u32::MAX,
        (freq * total_div) / (xtal as int) < 256,
    ensures
        ({
            let (mult, num) = pll_coeffs_spec(xtal, total_div, denom, freq)->Ok_0;
            let pll = freq * total_div;
            &&& xtal * (mult * denom + num) <= pll * denom
            &&& pll * denom < xtal * (mult * denom + num + 1)
        }),
{
    let pll: int = freq * total_div;
    let x = xtal as int;
    let dn = denom as int;
    let q = pll / x;
    let r = pll % x;
    let num = r * dn / x;
    assert(pll == q * x + r && 0 <= r < x) by (nonlinear_arith)
        requires q == pll / x, r == pll % x, x > 0;
    assert(num * x <= r * dn < (num + 1) * x) by (nonlinear_arith)
        requires num == r * dn / x, x > 0, r >= 0, dn > 0;
    assert(q % 256 == q);
    assert(num == (num as u32)) by {
        assert(r * dn / x < dn) by (nonlinear_arith)
            requires r < x, dn > 0, r >= 0, x > 0;
    }
    assert(x * (q * dn + num) <= pll * dn) by (nonlinear_arith)
        requires pll == q * x + r, num * x <= r * dn;
    assert(pll * dn < x * (q * dn + num + 1)) by (nonlinear_arith)
        requires pll == q * x + r, r * dn < (num + 1) * x;
}

} // verus!
