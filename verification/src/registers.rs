//! Register map, command bits and configuration values of the TSL2591.
use vstd::prelude::*;

verus! {

/// Default I2C address
pub const TSL2591_ADDR: u8 = 0x29;

/// 1010 0000: bits 7 and 5 for 'command normal'
pub const TSL2591_COMMAND_BIT: u8 = 0xA0;

/// Special Function Command for "Clear ALS and no persist ALS interrupt"
pub const TSL2591_CLEAR_INT: u8 = 0xE7;

/// Special Function Command for "Interrupt set - forces an interrupt"
pub const TSL2591_TEST_INT: u8 = 0xE4;

/// Read/write word rather than byte
pub const TSL2591_WORD_BIT: u8 = 0x20;

/// Using block read/write
pub const TSL2591_BLOCK_BIT: u8 = 0x10;

/// Flag for ENABLE register to disable
pub const TSL2591_ENABLE_POWEROFF: u8 = 0x00;

/// Flag for ENABLE register to enable
pub const TSL2591_ENABLE_POWERON: u8 = 0x01;

/// ALS Enable. This field activates ALS function. Writing a one
/// activates the ALS. Writing a zero disables the ALS.
pub const TSL2591_ENABLE_AEN: u8 = 0x02;

/// ALS Interrupt Enable. When asserted permits ALS interrupts to be
/// generated, subject to the persist filter.
pub const TSL2591_ENABLE_AIEN: u8 = 0x10;

/// No Persist Interrupt Enable. When asserted NP Threshold conditions
/// will generate an interrupt, bypassing the persist filter
pub const TSL2591_ENABLE_NPIEN: u8 = 0x80;

/// Value that the DeviceID register of a TSL2591 holds.
pub const TSL2591_DEVICE_ID: u8 = 0x50;

/// TSL2591 Register map
#[derive(Debug, Clone, Copy, PartialEq, Eq)]
pub enum Register {
    /// Enable register
    Enable,
    /// Control register
    Control,
    /// ALS low threshold lower byte
    ThresholdAiltl,
    /// ALS low threshold upper byte
    ThresholdAilth,
    /// ALS high threshold lower byte
    ThresholdAihtl,
    /// ALS high threshold upper byte
    ThresholdAihth,
    /// No Persist ALS low threshold lower byte
    ThresholdNpailtl,
    /// No Persist ALS low threshold higher byte
    ThresholdNpailth,
    /// No Persist ALS high threshold lower byte
    ThresholdNpaihtl,
    /// No Persist ALS high threshold higher byte
    ThresholdNpainth,
    /// Interrupt persistence filter
    PersistFilter,
    /// Package Identification
    PackagePID,
    /// Device Identification
    DeviceID,
    /// Internal Status
    DeviceStatus,
    /// Channel 0 data, low byte
    Chan0Low,
    /// Channel 0 data, high byte
    Chan0High,
    /// Channel 1 data, low byte
    Chan1Low,
    /// Channel 1 data, hight byte
    Chan1High,
}

impl Register {
    /// The register's address in the sensor's register file.
    pub open spec fn spec_addr(self) -> u8 {
        match self {
            Register::Enable => 0x00,
            Register::Control => 0x01,
            Register::ThresholdAiltl => 0x04,
            Register::ThresholdAilth => 0x05,
            Register::ThresholdAihtl => 0x06,
            Register::ThresholdAihth => 0x07,
            Register::ThresholdNpailtl => 0x08,
            Register::ThresholdNpailth => 0x09,
            Register::ThresholdNpaihtl => 0x0A,
            Register::ThresholdNpainth => 0x0B,
            Register::PersistFilter => 0x0C,
            Register::PackagePID => 0x11,
            Register::DeviceID => 0x12,
            Register::DeviceStatus => 0x13,
            Register::Chan0Low => 0x14,
            Register::Chan0High => 0x15,
            Register::Chan1Low => 0x16,
            Register::Chan1High => 0x17,
        }
    }

    /// The register's address in the sensor's register file.
    #[verifier::when_used_as_spec(spec_addr)]
    pub fn addr(self) -> (a: u8)
        ensures
            a == self.spec_addr(),
    {
        match self {
            Register::Enable => 0x00,
            Register::Control => 0x01,
            Register::ThresholdAiltl => 0x04,
            Register::ThresholdAilth => 0x05,
            Register::ThresholdAihtl => 0x06,
            Register::ThresholdAihth => 0x07,
            Register::ThresholdNpailtl => 0x08,
            Register::ThresholdNpailth => 0x09,
            Register::ThresholdNpaihtl => 0x0A,
            Register::ThresholdNpainth => 0x0B,
            Register::PersistFilter => 0x0C,
            Register::PackagePID => 0x11,
            Register::DeviceID => 0x12,
            Register::DeviceStatus => 0x13,
            Register::Chan0Low => 0x14,
            Register::Chan0High => 0x15,
            Register::Chan1Low => 0x16,
            Register::Chan1High => 0x17,
        }
    }
}

/// Enumeration for the sensor integration timing
#[derive(Debug, Clone, Copy, PartialEq, Eq)]
pub enum IntegrationTime {
    /// 100 millis
    OneHundredMS,
    /// 200 millis
    TwoHundredMS,
    /// 300 millis
    ThreeHundredMS,
    /// 400 millis
    FourHundredMS,
    /// 500 millis
    FiveHundredMS,
    /// 600 millis
    SixHundredMS,
}

impl IntegrationTime {
    /// The ATIME field value (bits 2-0 of the Control register).
    pub open spec fn spec_bits(self) -> u8 {
        match self {
            IntegrationTime::OneHundredMS => 0x00,
            IntegrationTime::TwoHundredMS => 0x01,
            IntegrationTime::ThreeHundredMS => 0x02,
            IntegrationTime::FourHundredMS => 0x03,
            IntegrationTime::FiveHundredMS => 0x04,
            IntegrationTime::SixHundredMS => 0x05,
        }
    }

    /// The integration period in milliseconds.
    pub open spec fn spec_millis(self) -> nat {
        100 * (self.spec_bits() + 1) as nat
    }

    /// The ATIME field value (bits 2-0 of the Control register).
    #[verifier::when_used_as_spec(spec_bits)]
    pub fn bits(self) -> (b: u8)
        ensures
            b == self.spec_bits(),
    {
        match self {
            IntegrationTime::OneHundredMS => 0x00,
            IntegrationTime::TwoHundredMS => 0x01,
            IntegrationTime::ThreeHundredMS => 0x02,
            IntegrationTime::FourHundredMS => 0x03,
            IntegrationTime::FiveHundredMS => 0x04,
            IntegrationTime::SixHundredMS => 0x05,
        }
    }

    /// The integration period in milliseconds (100 to 600).
    pub fn millis(self) -> (ms: u32)
        ensures
            ms == self.spec_millis(),
    {
        match self {
            IntegrationTime::OneHundredMS => 100,
            IntegrationTime::TwoHundredMS => 200,
            IntegrationTime::ThreeHundredMS => 300,
            IntegrationTime::FourHundredMS => 400,
            IntegrationTime::FiveHundredMS => 500,
            IntegrationTime::SixHundredMS => 600,
        }
    }
}

/// Interrupt persistence filter settings
///
/// Determines how many consecutive readings outside thresholds trigger an interrupt.
///
/// # Hardware Note
/// **Bits 7-4 are reserved and must be 0.** Only bits 3-0 (values 0-15) are used.
/// This means valid persistence values range from 0x00 to 0x0F.
#[derive(Debug, Clone, Copy, PartialEq, Eq)]
pub enum Persist {
    /// Every ALS cycle generates an interrupt
    Every,
    /// Any value outside of threshold range
    Any,
    /// 2 consecutive values out of range
    Two,
    /// 3 consecutive values out of range
    Three,
    /// 5 consecutive values out of range
    Five,
    /// 10 consecutive values out of range
    Ten,
    /// 15 consecutive values out of range
    Fifteen,
    /// 20 consecutive values out of range
    Twenty,
    /// 25 consecutive values out of range
    TwentyFive,
    /// 30 consecutive values out of range
    Thirty,
    /// 35 consecutive values out of range
    ThirtyFive,
    /// 40 consecutive values out of range
    Forty,
    /// 45 consecutive values out of range
    FortyFive,
    /// 50 consecutive values out of range
    Fifty,
    /// 55 consecutive values out of range
    FiftyFive,
    /// 60 consecutive values out of range
    Sixty,
}

impl Persist {
    /// The APERS field value written to the persistence filter register.
    pub open spec fn spec_bits(self) -> u8 {
        match self {
            Persist::Every => 0x00,
            Persist::Any => 0x01,
            Persist::Two => 0x02,
            Persist::Three => 0x03,
            Persist::Five => 0x04,
            Persist::Ten => 0x05,
            Persist::Fifteen => 0x06,
            Persist::Twenty => 0x07,
            Persist::TwentyFive => 0x08,
            Persist::Thirty => 0x09,
            Persist::ThirtyFive => 0x0A,
            Persist::Forty => 0x0B,
            Persist::FortyFive => 0x0C,
            Persist::Fifty => 0x0D,
            Persist::FiftyFive => 0x0E,
            Persist::Sixty => 0x0F,
        }
    }

    /// The APERS field value written to the persistence filter register.
    #[verifier::when_used_as_spec(spec_bits)]
    pub fn bits(self) -> (b: u8)
        ensures
            b == self.spec_bits(),
    {
        match self {
            Persist::Every => 0x00,
            Persist::Any => 0x01,
            Persist::Two => 0x02,
            Persist::Three => 0x03,
            Persist::Five => 0x04,
            Persist::Ten => 0x05,
            Persist::Fifteen => 0x06,
            Persist::Twenty => 0x07,
            Persist::TwentyFive => 0x08,
            Persist::Thirty => 0x09,
            Persist::ThirtyFive => 0x0A,
            Persist::Forty => 0x0B,
            Persist::FortyFive => 0x0C,
            Persist::Fifty => 0x0D,
            Persist::FiftyFive => 0x0E,
            Persist::Sixty => 0x0F,
        }
    }
}

/// Enumeration for the sensor gain
#[derive(Debug, Clone, Copy, PartialEq, Eq)]
pub enum Gain {
    /// low gain (1x)
    Low,
    /// medium gain (25x)
    Medium,
    /// high gain (428x)
    High,
    /// max gain (9876x)
    Max,
}

impl Gain {
    /// The AGAIN field value (bits 5-4 of the Control register).
    pub open spec fn spec_bits(self) -> u8 {
        match self {
            Gain::Low => 0x00,
            Gain::Medium => 0x10,
            Gain::High => 0x20,
            Gain::Max => 0x30,
        }
    }

    /// The amplification factor of the gain setting.
    pub open spec fn spec_factor(self) -> nat {
        match self {
            Gain::Low => 1,
            Gain::Medium => 25,
            Gain::High => 428,
            Gain::Max => 9876,
        }
    }

    /// The AGAIN field value (bits 5-4 of the Control register).
    #[verifier::when_used_as_spec(spec_bits)]
    pub fn bits(self) -> (b: u8)
        ensures
            b == self.spec_bits(),
    {
        match self {
            Gain::Low => 0x00,
            Gain::Medium => 0x10,
            Gain::High => 0x20,
            Gain::Max => 0x30,
        }
    }

    /// The amplification factor of the gain setting (1, 25, 428 or 9876).
    pub fn factor(self) -> (f: u32)
        ensures
            f == self.spec_factor(),
    {
        match self {
            Gain::Low => 1,
            Gain::Medium => 25,
            Gain::High => 428,
            Gain::Max => 9876,
        }
    }
}

} // verus!
