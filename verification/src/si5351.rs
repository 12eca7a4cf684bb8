//! Si5351 clock generator: register planning.
//!
//! The device is driven over I2C, one write transaction at a time. This module
//! decides every byte of those transactions and the driver-side state that
//! goes with them; it performs no bus traffic itself. Each operation returns a
//! plan, a list of [`Transfer`]s: the bytes of one write (register address
//! first) and the mask state the driver holds once that write has gone
//! through. Whoever owns the bus sends the transfers in order, commits each
//! one's masks with [`Si5351Device::commit`] after its write succeeds, and
//! stops with [`Error::CommunicationError`] at the first write that fails -
//! which leaves the driver state exactly where a failed write leaves it.

use vstd::prelude::*;

verus! {

#[derive(Debug, Copy, Clone, Eq, PartialEq, Structural)]
pub enum Error {
    CommunicationError,
    InvalidParameter,
}

#[derive(Debug, Copy, Clone, Eq, PartialEq, Structural)]
pub enum CrystalLoad {
    _6,
    _8,
    _10,
}

#[derive(Debug, Copy, Clone, Eq, PartialEq, Structural)]
pub enum PLL {
    A,
    B,
}

#[derive(Debug, Copy, Clone, Eq, PartialEq, Structural)]
pub enum FeedbackMultisynth {
    MSNA,
    MSNB,
}

#[derive(Debug, Copy, Clone, Eq, PartialEq, Structural)]
pub enum Multisynth {
    MS0,
    MS1,
    MS2,
    MS3,
    MS4,
    MS5,
}

#[derive(Debug, Copy, Clone, Eq, PartialEq, Structural)]
pub enum ClockOutput {
    Clk0,
    Clk1,
    Clk2,
    Clk3,
    Clk4,
    Clk5,
    Clk6,
    Clk7,
}

#[derive(Debug, Copy, Clone, Eq, PartialEq, Structural)]
pub enum OutputDivider {
    Div1,
    Div2,
    Div4,
    Div8,
    Div16,
    Div32,
    Div64,
    Div128,
}

/// Output drive strength of a clock output.
#[derive(Debug, Copy, Clone, Eq, PartialEq, Structural)]
pub enum DriveStrength {
    _2mA,
    _4mA,
    _6mA,
    _8mA,
}

/// Device I2C address with the address pin low.
pub const ADDRESS: u8 = 0b0110_0000;

/// Device status bits (register 0).
pub const SYS_INIT: u8 = 0b1000_0000;
pub const LOL_B: u8 = 0b0100_0000;
pub const LOL_A: u8 = 0b0010_0000;
pub const LOS: u8 = 0b0001_0000;

/// Crystal load register (183): reserved bits that must be written as 010010,
/// and the load capacitance field.
pub const XTAL_RESERVED: u8 = 0b00_010010;
pub const XTAL_CL_6: u8 = 0b01_000000;
pub const XTAL_CL_8: u8 = 0b10_000000;
pub const XTAL_CL_10: u8 = 0b11_000000;

/// Clock control register (16..23) bits.
pub const CLK_PDN: u8 = 0b1000_0000;
pub const MS_INT: u8 = 0b0100_0000;
pub const MS_SRC: u8 = 0b0010_0000;
pub const CLK_SRC_MS: u8 = 0b0000_1100;
pub const CLK_DRV_8: u8 = 0b0000_0011;

/// PLL reset register (177) bits.
pub const PLLB_RST: u8 = 0b1000_0000;
pub const PLLA_RST: u8 = 0b0010_0000;

/// Largest numerator or denominator of a fractional divider (20 bits).
pub const FRAC_MAX: u32 = 0xFFFFF;

/// Denominator used for the PLL fraction by `set_frequency`.
pub const PLL_DENOM: u32 = 1_048_575;

/// Highest PLL frequency `set_frequency` plans for.
pub const MAX_PLL_FREQ: u32 = 900_000_000;

impl PLL {
    pub open spec fn spec_multisynth(self) -> FeedbackMultisynth {
        match self {
            PLL::A => FeedbackMultisynth::MSNA,
            PLL::B => FeedbackMultisynth::MSNB,
        }
    }

    /// The feedback multisynth that sets this PLL's frequency.
    pub fn multisynth(&self) -> (r: FeedbackMultisynth)
        ensures
            r == self.spec_multisynth(),
    {
        match *self {
            PLL::A => FeedbackMultisynth::MSNA,
            PLL::B => FeedbackMultisynth::MSNB,
        }
    }
}

/// A multisynth configured by a fractional divider: its first register, and
/// its bit in the integer-mode mask.
pub trait FractionalMultisynth {
    spec fn spec_base_addr(&self) -> u8;

    spec fn spec_ix(&self) -> u8;

    fn base_addr(&self) -> (r: u8)
        ensures
            r == self.spec_base_addr(),
    ;

    fn ix(&self) -> (r: u8)
        ensures
            r == self.spec_ix(),
            r < 8,
    ;
}

impl FractionalMultisynth for FeedbackMultisynth {
    open spec fn spec_base_addr(&self) -> u8 {
        match *self {
            FeedbackMultisynth::MSNA => 26,
            FeedbackMultisynth::MSNB => 34,
        }
    }

    open spec fn spec_ix(&self) -> u8 {
        match *self {
            FeedbackMultisynth::MSNA => 6,
            FeedbackMultisynth::MSNB => 7,
        }
    }

    fn base_addr(&self) -> (r: u8) {
        match *self {
            FeedbackMultisynth::MSNA => 26,
            FeedbackMultisynth::MSNB => 34,
        }
    }

    fn ix(&self) -> (r: u8) {
        match *self {
            FeedbackMultisynth::MSNA => 6,
            FeedbackMultisynth::MSNB => 7,
        }
    }
}

impl FractionalMultisynth for Multisynth {
    open spec fn spec_base_addr(&self) -> u8 {
        match *self {
            Multisynth::MS0 => 42,
            Multisynth::MS1 => 50,
            Multisynth::MS2 => 58,
            Multisynth::MS3 => 66,
            Multisynth::MS4 => 74,
            Multisynth::MS5 => 82,
        }
    }

    open spec fn spec_ix(&self) -> u8 {
        match *self {
            Multisynth::MS0 => 0,
            Multisynth::MS1 => 1,
            Multisynth::MS2 => 2,
            Multisynth::MS3 => 3,
            Multisynth::MS4 => 4,
            Multisynth::MS5 => 5,
        }
    }

    fn base_addr(&self) -> (r: u8) {
        match *self {
            Multisynth::MS0 => 42,
            Multisynth::MS1 => 50,
            Multisynth::MS2 => 58,
            Multisynth::MS3 => 66,
            Multisynth::MS4 => 74,
            Multisynth::MS5 => 82,
        }
    }

    fn ix(&self) -> (r: u8) {
        match *self {
            Multisynth::MS0 => 0,
            Multisynth::MS1 => 1,
            Multisynth::MS2 => 2,
            Multisynth::MS3 => 3,
            Multisynth::MS4 => 4,
            Multisynth::MS5 => 5,
        }
    }
}

/// Registers written or read one byte at a time.
#[derive(Debug, Copy, Clone, Eq, PartialEq, Structural)]
pub enum Register {
    DeviceStatus,
    OutputEnable,
    Clk0,
    Clk1,
    Clk2,
    Clk3,
    Clk4,
    Clk5,
    Clk6,
    Clk7,
    PLLReset,
    CrystalLoad,
}

impl Register {
    pub open spec fn spec_addr(self) -> u8 {
        match self {
            Register::DeviceStatus => 0,
            Register::OutputEnable => 3,
            Register::Clk0 => 16,
            Register::Clk1 => 17,
            Register::Clk2 => 18,
            Register::Clk3 => 19,
            Register::Clk4 => 20,
            Register::Clk5 => 21,
            Register::Clk6 => 22,
            Register::Clk7 => 23,
            Register::PLLReset => 177,
            Register::CrystalLoad => 183,
        }
    }

    /// The register's address.
    pub fn addr(self) -> (r: u8)
        ensures
            r == self.spec_addr(),
    {
        match self {
            Register::DeviceStatus => 0,
            Register::OutputEnable => 3,
            Register::Clk0 => 16,
            Register::Clk1 => 17,
            Register::Clk2 => 18,
            Register::Clk3 => 19,
            Register::Clk4 => 20,
            Register::Clk5 => 21,
            Register::Clk6 => 22,
            Register::Clk7 => 23,
            Register::PLLReset => 177,
            Register::CrystalLoad => 183,
        }
    }
}

/// Device status (register 0), with the bits that carry no meaning dropped.
#[derive(Debug, Copy, Clone, Eq, PartialEq, Structural)]
pub struct DeviceStatusBits {
    bits: u8,
}

impl View for DeviceStatusBits {
    type V = u8;

    closed spec fn view(&self) -> u8 {
        self.bits
    }
}

impl DeviceStatusBits {
    /// The status read from the device, keeping only SYS_INIT, LOL_B, LOL_A
    /// and LOS.
    pub fn from_bits_truncate(byte: u8) -> (r: DeviceStatusBits)
        ensures
            r@ == byte & 0xF0,
    {
        DeviceStatusBits { bits: byte & 0xF0 }
    }

    pub fn bits(&self) -> (r: u8)
        ensures
            r == self@,
    {
        self.bits
    }

    /// Whether every bit of `flags` is set.
    pub fn contains(&self, flags: u8) -> (r: bool)
        ensures
            r == (self@ & flags == flags),
    {
        self.bits & flags == flags
    }
}

impl ClockOutput {
    pub open spec fn spec_ix(self) -> u8 {
        match self {
            ClockOutput::Clk0 => 0,
            ClockOutput::Clk1 => 1,
            ClockOutput::Clk2 => 2,
            ClockOutput::Clk3 => 3,
            ClockOutput::Clk4 => 4,
            ClockOutput::Clk5 => 5,
            ClockOutput::Clk6 => 6,
            ClockOutput::Clk7 => 7,
        }
    }

    pub open spec fn spec_register(self) -> Register {
        match self {
            ClockOutput::Clk0 => Register::Clk0,
            ClockOutput::Clk1 => Register::Clk1,
            ClockOutput::Clk2 => Register::Clk2,
            ClockOutput::Clk3 => Register::Clk3,
            ClockOutput::Clk4 => Register::Clk4,
            ClockOutput::Clk5 => Register::Clk5,
            ClockOutput::Clk6 => Register::Clk6,
            ClockOutput::Clk7 => Register::Clk7,
        }
    }

    /// The multisynth that drives this output, for the six outputs that have a
    /// fractional one.
    pub open spec fn spec_multisynth(self) -> Option<Multisynth> {
        match self {
            ClockOutput::Clk0 => Some(Multisynth::MS0),
            ClockOutput::Clk1 => Some(Multisynth::MS1),
            ClockOutput::Clk2 => Some(Multisynth::MS2),
            ClockOutput::Clk3 => Some(Multisynth::MS3),
            ClockOutput::Clk4 => Some(Multisynth::MS4),
            ClockOutput::Clk5 => Some(Multisynth::MS5),
            ClockOutput::Clk6 => None,
            ClockOutput::Clk7 => None,
        }
    }

    /// The output's control register.
    pub fn register(self) -> (r: Register)
        ensures
            r == self.spec_register(),
    {
        match self {
            ClockOutput::Clk0 => Register::Clk0,
            ClockOutput::Clk1 => Register::Clk1,
            ClockOutput::Clk2 => Register::Clk2,
            ClockOutput::Clk3 => Register::Clk3,
            ClockOutput::Clk4 => Register::Clk4,
            ClockOutput::Clk5 => Register::Clk5,
            ClockOutput::Clk6 => Register::Clk6,
            ClockOutput::Clk7 => Register::Clk7,
        }
    }

    /// The output's bit position in the enable and source masks.
    pub fn ix(self) -> (r: u8)
        ensures
            r == self.spec_ix(),
            r < 8,
    {
        match self {
            ClockOutput::Clk0 => 0,
            ClockOutput::Clk1 => 1,
            ClockOutput::Clk2 => 2,
            ClockOutput::Clk3 => 3,
            ClockOutput::Clk4 => 4,
            ClockOutput::Clk5 => 5,
            ClockOutput::Clk6 => 6,
            ClockOutput::Clk7 => 7,
        }
    }
}

impl OutputDivider {
    pub open spec fn spec_bits(self) -> u8 {
        match self {
            OutputDivider::Div1 => 0,
            OutputDivider::Div2 => 1,
            OutputDivider::Div4 => 2,
            OutputDivider::Div8 => 3,
            OutputDivider::Div16 => 4,
            OutputDivider::Div32 => 5,
            OutputDivider::Div64 => 6,
            OutputDivider::Div128 => 7,
        }
    }

    pub open spec fn spec_divisor(self) -> u8 {
        match self {
            OutputDivider::Div1 => 1,
            OutputDivider::Div2 => 2,
            OutputDivider::Div4 => 4,
            OutputDivider::Div8 => 8,
            OutputDivider::Div16 => 16,
            OutputDivider::Div32 => 32,
            OutputDivider::Div64 => 64,
            OutputDivider::Div128 => 128,
        }
    }

    /// The smallest output divider that divides by at least `desired`, or
    /// `InvalidParameter` when that is more than 128.
    pub open spec fn spec_min_divider(desired: u16) -> Result<OutputDivider, Error> {
        if desired <= 1 {
            Ok(OutputDivider::Div1)
        } else if desired <= 2 {
            Ok(OutputDivider::Div2)
        } else if desired <= 4 {
            Ok(OutputDivider::Div4)
        } else if desired <= 8 {
            Ok(OutputDivider::Div8)
        } else if desired <= 16 {
            Ok(OutputDivider::Div16)
        } else if desired <= 32 {
            Ok(OutputDivider::Div32)
        } else if desired <= 64 {
            Ok(OutputDivider::Div64)
        } else if desired <= 128 {
            Ok(OutputDivider::Div128)
        } else {
            Err(Error::InvalidParameter)
        }
    }

    /// The divider's field value in the R_DIV bits.
    pub fn bits(self) -> (r: u8)
        ensures
            r == self.spec_bits(),
    {
        match self {
            OutputDivider::Div1 => 0,
            OutputDivider::Div2 => 1,
            OutputDivider::Div4 => 2,
            OutputDivider::Div8 => 3,
            OutputDivider::Div16 => 4,
            OutputDivider::Div32 => 5,
            OutputDivider::Div64 => 6,
            OutputDivider::Div128 => 7,
        }
    }

    /// The smallest output divider that divides by at least `desired_divider`.
    pub fn min_divider(desired_divider: u16) -> (r: Result<Self, Error>)
        ensures
            r == Self::spec_min_divider(desired_divider),
            r matches Ok(d) ==> d.spec_divisor() >= desired_divider && (d.spec_divisor() == 1
                || 2 * desired_divider > d.spec_divisor()),
            r is Err <==> desired_divider > 128,
    {
        if desired_divider <= 1 {
            Ok(Self::Div1)
        } else if desired_divider <= 2 {
            Ok(Self::Div2)
        } else if desired_divider <= 4 {
            Ok(Self::Div4)
        } else if desired_divider <= 8 {
            Ok(Self::Div8)
        } else if desired_divider <= 16 {
            Ok(Self::Div16)
        } else if desired_divider <= 32 {
            Ok(Self::Div32)
        } else if desired_divider <= 64 {
            Ok(Self::Div64)
        } else if desired_divider <= 128 {
            Ok(Self::Div128)
        } else {
            Err(Error::InvalidParameter)
        }
    }

    /// The factor the divider divides by.
    pub fn divisor(self) -> (r: u8)
        ensures
            r == self.spec_divisor(),
    {
        match self {
            Self::Div1 => 1,
            Self::Div2 => 2,
            Self::Div4 => 4,
            Self::Div8 => 8,
            Self::Div16 => 16,
            Self::Div32 => 32,
            Self::Div64 => 64,
            Self::Div128 => 128,
        }
    }
}

/// Any bus error is a communication error.
pub fn i2c_error<E>(_e: E) -> (r: Error)
    ensures
        r == Error::CommunicationError,
{
    Error::CommunicationError
}

} // verus!

pub mod device;

pub use device::{Masks, Si5351Device, Transfer};
