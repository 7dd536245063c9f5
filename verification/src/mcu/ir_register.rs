//! Registers of the IR camera and the values written to them.
use crate::common::{IdEnum, U16LE};
use vstd::prelude::*;
use vstd::std_specs::convert::FromSpecImpl;

verus! {

/// A register address of the IR camera with the value to write to it.
///
/// The address is stored little-endian: the page, then the offset in the page.
#[derive(Copy, Clone, Debug)]
pub struct Register {
    pub address: U16LE,
    pub value: u8,
}

impl Default for Register {
    fn default() -> (r: Register)
        ensures
            r.address == U16LE([0, 0]),
            r.value == 0,
    {
        Register { address: U16LE([0, 0]), value: 0 }
    }
}

/// The named register addresses.
#[derive(Copy, Clone, Debug, PartialEq, Eq, Structural)]
enum Address {
    Resolution,
    DigitalGainLSB,
    DigitalGainMSB,
    ExposureLSB,
    ExposureMSB,
    ExposureMode,
    ExternalLightFilter,
    WhitePixelThreshold,
    IntensityLeds12,
    IntensityLeds34,
    Flip,
    Denoise,
    EdgeSmoothingThreshold,
    ColorInterpolationThreshold,
    BufferUpdateTimeLSB,
    IRLeds,
    Finish,
}

impl Address {
    spec fn value(self) -> u16 {
        match self {
            Address::Resolution => 0x2e00,
            Address::DigitalGainLSB => 0x2e01,
            Address::DigitalGainMSB => 0x2f01,
            Address::ExposureLSB => 0x3001,
            Address::ExposureMSB => 0x3101,
            Address::ExposureMode => 0x3201,
            Address::ExternalLightFilter => 0x0e00,
            Address::WhitePixelThreshold => 0x4301,
            Address::IntensityLeds12 => 0x1100,
            Address::IntensityLeds34 => 0x1200,
            Address::Flip => 0x2d00,
            Address::Denoise => 0x6701,
            Address::EdgeSmoothingThreshold => 0x6801,
            Address::ColorInterpolationThreshold => 0x6901,
            Address::BufferUpdateTimeLSB => 0x0400,
            Address::IRLeds => 0x1000,
            Address::Finish => 0x0700,
        }
    }

    fn to_u16(self) -> (r: u16)
        ensures
            r == self.value(),
    {
        match self {
            Address::Resolution => 0x2e00,
            Address::DigitalGainLSB => 0x2e01,
            Address::DigitalGainMSB => 0x2f01,
            Address::ExposureLSB => 0x3001,
            Address::ExposureMSB => 0x3101,
            Address::ExposureMode => 0x3201,
            Address::ExternalLightFilter => 0x0e00,
            Address::WhitePixelThreshold => 0x4301,
            Address::IntensityLeds12 => 0x1100,
            Address::IntensityLeds34 => 0x1200,
            Address::Flip => 0x2d00,
            Address::Denoise => 0x6701,
            Address::EdgeSmoothingThreshold => 0x6801,
            Address::ColorInterpolationThreshold => 0x6901,
            Address::BufferUpdateTimeLSB => 0x0400,
            Address::IRLeds => 0x1000,
            Address::Finish => 0x0700,
        }
    }
}

/// The register at `address` holding `value`.
pub open spec fn reg(address: u16, value: u8) -> Register {
    Register { address: U16LE::of(address), value }
}

/// The register at `offset` of `page` holding `value`.
pub open spec fn raw_reg(page: u8, offset: u8, value: u8) -> Register {
    Register { address: U16LE([page, offset]), value }
}

impl Register {
    /// The register at address 0 holding 0.
    pub open spec fn zero() -> Register {
        Register { address: U16LE([0, 0]), value: 0 }
    }

    /// The three bytes of the register on the wire: address, then value.
    pub open spec fn spec_bytes(self) -> Seq<u8> {
        seq![self.address.0[0], self.address.0[1], self.value]
    }

    fn new(address: Address, value: u8) -> (r: Register)
        ensures
            r == reg(address.value(), value),
    {
        Register { address: U16LE::from(address.to_u16()), value }
    }

    pub fn resolution(resolution: Resolution) -> (r: Register)
        ensures
            r == reg(0x2e00, resolution.spec_to_u8()),
    {
        Register::new(Address::Resolution, resolution.to_u8())
    }

    /// The exposure, low byte then high byte.
    pub fn exposure(exposure: u16) -> (r: [Register; 2])
        ensures
            r[0] == reg(0x3001, (exposure % 256) as u8),
            r[1] == reg(0x3101, (exposure / 256) as u8),
    {
        [
            Register::new(Address::ExposureLSB, (exposure % 256) as u8),
            Register::new(Address::ExposureMSB, (exposure / 256) as u8),
        ]
    }

    pub fn exposure_mode(mode: ExposureMode) -> (r: Register)
        ensures
            r == reg(0x3201, mode.spec_to_u8()),
    {
        Register::new(Address::ExposureMode, mode.to_u8())
    }

    /// The gain: its low nibble in the high nibble of the first register, its
    /// second nibble in the low nibble of the second.
    pub fn digital_gain(gain: u16) -> (r: [Register; 2])
        ensures
            r[0] == reg(0x2e01, ((gain % 16) * 16) as u8),
            r[1] == reg(0x2f01, ((gain / 16) % 16) as u8),
    {
        [
            Register::new(Address::DigitalGainLSB, ((gain % 16) * 16) as u8),
            Register::new(Address::DigitalGainMSB, ((gain / 16) % 16) as u8),
        ]
    }

    /// Bit 5 turns the far LEDs off, bit 6 the near ones.
    pub fn ir_leds(far: bool, near: bool) -> (r: Register)
        ensures
            r == reg(0x1000, ((if far { 0int } else { 32 }) + (if near { 0int } else { 64 })) as u8),
    {
        let f: u8 = if far { 0 } else { 32 };
        let n: u8 = if near { 0 } else { 64 };
        Register::new(Address::IRLeds, f + n)
    }

    /// The filter, written at the address of the low byte of the digital
    /// gain, address 0x2e01.
    pub fn external_light_filter(filter: ExternalLightFilter) -> (r: Register)
        ensures
            r == reg(0x2e01, filter.spec_to_u8()),
    {
        Register::new(Address::DigitalGainLSB, filter.to_u8())
    }

    pub fn white_pixel_threshold(threshold: u8) -> (r: Register)
        ensures
            r == reg(0x4301, threshold),
    {
        Register::new(Address::WhitePixelThreshold, threshold)
    }

    /// Four 4-bit intensities, two per register, the first in the high nibble.
    pub fn leds_intensity(l1: u8, l2: u8, l3: u8, l4: u8) -> (r: [Register; 2])
        requires
            l1 < 16,
            l2 < 16,
            l3 < 16,
            l4 < 16,
        ensures
            r[0] == reg(0x1100, (l1 * 16 + l2) as u8),
            r[1] == reg(0x1200, (l3 * 16 + l4) as u8),
    {
        [
            Register::new(Address::IntensityLeds12, l1 * 16 + l2),
            Register::new(Address::IntensityLeds34, l3 * 16 + l4),
        ]
    }

    pub fn flip(side: Flip) -> (r: Register)
        ensures
            r == reg(0x2d00, side.spec_to_u8()),
    {
        Register::new(Address::Flip, side.to_u8())
    }

    pub fn denoise(enabled: bool) -> (r: Register)
        ensures
            r == reg(0x6701, if enabled { 1u8 } else { 0u8 }),
    {
        Register::new(Address::Denoise, if enabled { 1 } else { 0 })
    }

    pub fn edge_smoothing_threshold(threshold: u8) -> (r: Register)
        ensures
            r == reg(0x6801, threshold),
    {
        Register::new(Address::EdgeSmoothingThreshold, threshold)
    }

    pub fn color_interpolation_threshold(threshold: u8) -> (r: Register)
        ensures
            r == reg(0x6901, threshold),
    {
        Register::new(Address::ColorInterpolationThreshold, threshold)
    }

    pub fn buffer_update_time(time: u8) -> (r: Register)
        ensures
            r == reg(0x0400, time),
    {
        Register::new(Address::BufferUpdateTimeLSB, time)
    }

    /// The register write that makes the camera apply the previous ones.
    pub fn finish() -> (r: Register)
        ensures
            r == reg(0x0700, 1),
    {
        Register::new(Address::Finish, 1)
    }

    /// The registers of a slice read from the camera: value `i` is at offset
    /// `offset + i` of `page`.
    pub fn decode_raw(page: u8, offset: u8, values: &[u8]) -> (r: Vec<Register>)
        requires
            offset + values@.len() <= 256,
        ensures
            r@.len() == values@.len(),
            forall|i: int|
                0 <= i < values@.len() ==> #[trigger] r@[i] == raw_reg(page, (offset + i) as u8, values@[i]),
    {
        let mut r: Vec<Register> = Vec::new();
        let mut i: usize = 0;
        while i < values.len()
            invariant
                i <= values@.len(),
                offset + values@.len() <= 256,
                r@.len() == i,
                forall|j: int|
                    0 <= j < i ==> #[trigger] r@[j] == raw_reg(page, (offset + j) as u8, values@[j]),
            decreases values@.len() - i,
        {
            r.push(Register { address: U16LE([page, offset + i as u8]), value: values[i] });
            i += 1;
        }
        r
    }
}

impl Resolution {
    /// The id of the last fragment of an image at this resolution.
    pub open spec fn spec_max_fragment_id(self) -> u8 {
        match self {
            Resolution::R320x240 => 0xffu8,
            Resolution::R160x120 => 0x3f,
            Resolution::R80x60 => 0x0f,
            Resolution::R40x30 => 0x03,
        }
    }

    /// The id of the last fragment of an image at this resolution.
    pub fn max_fragment_id(self) -> (r: u8)
        ensures
            r == self.spec_max_fragment_id(),
            r == match self {
                Resolution::R320x240 => 0xffu8,
                Resolution::R160x120 => 0x3f,
                Resolution::R80x60 => 0x0f,
                Resolution::R40x30 => 0x03,
            },
    {
        match self {
            Resolution::R320x240 => 0xff,
            Resolution::R160x120 => 0x3f,
            Resolution::R80x60 => 0x0f,
            Resolution::R40x30 => 0x03,
        }
    }
}

/// Resolution of the IR camera image.
#[derive(Copy, Clone, Debug, PartialEq, Eq, Structural)]
pub enum Resolution {
    /// Full pixel array
    R320x240,
    /// Sensor Binning [2 X 2]
    R160x120,
    /// Sensor Binning [4 x 2] and Skipping [1 x 2]
    R80x60,
    /// Sensor Binning [4 x 2] and Skipping [2 x 4]
    R40x30,
}

impl IdEnum for Resolution {
    open spec fn spec_from_u8(b: u8) -> Option<Self> {
        if b == 0b0000_0000 {
            Some(Resolution::R320x240)
        } else if b == 0b0101_0000 {
            Some(Resolution::R160x120)
        } else if b == 0b0110_0100 {
            Some(Resolution::R80x60)
        } else if b == 0b0110_1001 {
            Some(Resolution::R40x30)
        } else {
            None
        }
    }

    open spec fn spec_to_u8(self) -> u8 {
        match self {
            Resolution::R320x240 => 0b0000_0000,
            Resolution::R160x120 => 0b0101_0000,
            Resolution::R80x60 => 0b0110_0100,
            Resolution::R40x30 => 0b0110_1001,
        }
    }

    fn from_u8(b: u8) -> (r: Option<Self>) {
        match b {
            0b0000_0000 => Some(Resolution::R320x240),
            0b0101_0000 => Some(Resolution::R160x120),
            0b0110_0100 => Some(Resolution::R80x60),
            0b0110_1001 => Some(Resolution::R40x30),
            _ => None,
        }
    }

    fn to_u8(self) -> (r: u8) {
        match self {
            Resolution::R320x240 => 0b0000_0000,
            Resolution::R160x120 => 0b0101_0000,
            Resolution::R80x60 => 0b0110_0100,
            Resolution::R40x30 => 0b0110_1001,
        }
    }

    proof fn lemma_to_from(self) {
    }

    proof fn lemma_from_to(b: u8) {
    }
}

/// Exposure mode of the IR camera.
#[derive(Copy, Clone, Debug, PartialEq, Eq, Structural)]
pub enum ExposureMode {
    Manual,
    Max,
}

impl IdEnum for ExposureMode {
    open spec fn spec_from_u8(b: u8) -> Option<Self> {
        if b == 0 {
            Some(ExposureMode::Manual)
        } else if b == 1 {
            Some(ExposureMode::Max)
        } else {
            None
        }
    }

    open spec fn spec_to_u8(self) -> u8 {
        match self {
            ExposureMode::Manual => 0,
            ExposureMode::Max => 1,
        }
    }

    fn from_u8(b: u8) -> (r: Option<Self>) {
        match b {
            0 => Some(ExposureMode::Manual),
            1 => Some(ExposureMode::Max),
            _ => None,
        }
    }

    fn to_u8(self) -> (r: u8) {
        match self {
            ExposureMode::Manual => 0,
            ExposureMode::Max => 1,
        }
    }

    proof fn lemma_to_from(self) {
    }

    proof fn lemma_from_to(b: u8) {
    }
}

/// Filter of the external light of the IR camera.
#[derive(Copy, Clone, Debug, PartialEq, Eq, Structural)]
pub enum ExternalLightFilter {
    Off,
    X1,
}

impl IdEnum for ExternalLightFilter {
    open spec fn spec_from_u8(b: u8) -> Option<Self> {
        if b == 0b00 {
            Some(ExternalLightFilter::Off)
        } else if b == 0b11 {
            Some(ExternalLightFilter::X1)
        } else {
            None
        }
    }

    open spec fn spec_to_u8(self) -> u8 {
        match self {
            ExternalLightFilter::Off => 0b00,
            ExternalLightFilter::X1 => 0b11,
        }
    }

    fn from_u8(b: u8) -> (r: Option<Self>) {
        match b {
            0b00 => Some(ExternalLightFilter::Off),
            0b11 => Some(ExternalLightFilter::X1),
            _ => None,
        }
    }

    fn to_u8(self) -> (r: u8) {
        match self {
            ExternalLightFilter::Off => 0b00,
            ExternalLightFilter::X1 => 0b11,
        }
    }

    proof fn lemma_to_from(self) {
    }

    proof fn lemma_from_to(b: u8) {
    }
}

/// Orientation of the IR camera image.
#[derive(Copy, Clone, Debug, PartialEq, Eq, Structural)]
pub enum Flip {
    Normal,
    Vertically,
    Horizontally,
    Both,
}

impl IdEnum for Flip {
    open spec fn spec_from_u8(b: u8) -> Option<Self> {
        if b == 0 {
            Some(Flip::Normal)
        } else if b == 1 {
            Some(Flip::Vertically)
        } else if b == 2 {
            Some(Flip::Horizontally)
        } else if b == 3 {
            Some(Flip::Both)
        } else {
            None
        }
    }

    open spec fn spec_to_u8(self) -> u8 {
        match self {
            Flip::Normal => 0,
            Flip::Vertically => 1,
            Flip::Horizontally => 2,
            Flip::Both => 3,
        }
    }

    fn from_u8(b: u8) -> (r: Option<Self>) {
        match b {
            0 => Some(Flip::Normal),
            1 => Some(Flip::Vertically),
            2 => Some(Flip::Horizontally),
            3 => Some(Flip::Both),
            _ => None,
        }
    }

    fn to_u8(self) -> (r: u8) {
        match self {
            Flip::Normal => 0,
            Flip::Vertically => 1,
            Flip::Horizontally => 2,
            Flip::Both => 3,
        }
    }

    proof fn lemma_to_from(self) {
    }

    proof fn lemma_from_to(b: u8) {
    }
}

} // verus!
