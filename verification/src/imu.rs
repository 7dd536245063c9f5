//! The inertial measurement unit: modes, sensitivities and raw frames.
use crate::common::{IdEnum, RawId, I16LE};
use vstd::prelude::*;

verus! {

pub const IMU_SAMPLES_PER_SECOND: u32 = 200;

/// One sample of the accelerometer and of the gyroscope, raw.
#[derive(Copy, Clone, Debug)]
pub struct Frame {
    pub raw_accel: [I16LE; 3],
    pub raw_gyro: [I16LE; 3],
}

impl Frame {
    /// The frame in the first twelve bytes of `s`.
    pub open spec fn parse(s: Seq<u8>) -> Frame {
        Frame {
            raw_accel: [I16LE([s[0], s[1]]), I16LE([s[2], s[3]]), I16LE([s[4], s[5]])],
            raw_gyro: [I16LE([s[6], s[7]]), I16LE([s[8], s[9]]), I16LE([s[10], s[11]])],
        }
    }

    /// The frame in the twelve bytes of `s` from `off`.
    pub fn from_bytes(s: &[u8], off: usize) -> (r: Frame)
        requires
            off + 12 <= s@.len(),
        ensures
            r == Frame::parse(s@.subrange(off as int, off + 12)),
    {
        Frame {
            raw_accel: [
                I16LE([s[off], s[off + 1]]),
                I16LE([s[off + 2], s[off + 3]]),
                I16LE([s[off + 4], s[off + 5]]),
            ],
            raw_gyro: [
                I16LE([s[off + 6], s[off + 7]]),
                I16LE([s[off + 8], s[off + 9]]),
                I16LE([s[off + 10], s[off + 11]]),
            ],
        }
    }
}

/// The sensitivities of the gyroscope and accelerometer, as sent to the
/// controller.
#[derive(Copy, Clone, Debug)]
pub struct Sensitivity {
    pub gyro_sens: RawId<GyroSens>,
    pub acc_sens: RawId<AccSens>,
    pub gyro_perf_rate: RawId<GyroPerfRate>,
    pub acc_anti_aliasing: RawId<AccAntiAliasing>,
}

impl Sensitivity {
    /// The four bytes on the wire.
    pub open spec fn spec_bytes(self) -> Seq<u8> {
        seq![self.gyro_sens.0, self.acc_sens.0, self.gyro_perf_rate.0, self.acc_anti_aliasing.0]
    }

    /// The four bytes on the wire.
    pub fn bytes(&self) -> (r: [u8; 4])
        ensures
            r@ == self.spec_bytes(),
    {
        let r = [self.gyro_sens.0, self.acc_sens.0, self.gyro_perf_rate.0, self.acc_anti_aliasing.0];
        assert(r@ =~= self.spec_bytes());
        r
    }
}

impl Default for Sensitivity {
    fn default() -> (r: Self)
        ensures
            r.gyro_sens == RawId::of(GyroSens::DPS2000),
            r.acc_sens == RawId::of(AccSens::G8),
            r.gyro_perf_rate == RawId::of(GyroPerfRate::Hz208),
            r.acc_anti_aliasing == RawId::of(AccAntiAliasing::Hz100),
    {
        Sensitivity {
            gyro_sens: RawId::from(GyroSens::default()),
            acc_sens: RawId::from(AccSens::default()),
            gyro_perf_rate: RawId::from(GyroPerfRate::default()),
            acc_anti_aliasing: RawId::from(AccAntiAliasing::default()),
        }
    }
}

impl GyroSens {
    /// The total range measured, in degrees per second.
    pub fn range_dps(self) -> (r: u16)
        ensures
            r == match self {
                GyroSens::DPS250 => 500u16,
                GyroSens::DPS500 => 1000,
                GyroSens::DPS1000 => 2000,
                GyroSens::DPS2000 => 4000,
            },
    {
        match self {
            GyroSens::DPS250 => 500,
            GyroSens::DPS500 => 1000,
            GyroSens::DPS1000 => 2000,
            GyroSens::DPS2000 => 4000,
        }
    }
}

impl Default for GyroSens {
    fn default() -> (r: Self)
        ensures
            r == GyroSens::DPS2000,
    {
        GyroSens::DPS2000
    }
}

impl AccSens {
    /// The total range measured, in G.
    pub fn range_g(self) -> (r: u16)
        ensures
            r == match self {
                AccSens::G8 => 16u16,
                AccSens::G4 => 8,
                AccSens::G2 => 4,
                AccSens::G16 => 32,
            },
    {
        match self {
            AccSens::G8 => 16,
            AccSens::G4 => 8,
            AccSens::G2 => 4,
            AccSens::G16 => 32,
        }
    }
}

impl Default for AccSens {
    fn default() -> (r: Self)
        ensures
            r == AccSens::G8,
    {
        AccSens::G8
    }
}

impl Default for GyroPerfRate {
    fn default() -> (r: Self)
        ensures
            r == GyroPerfRate::Hz208,
    {
        GyroPerfRate::Hz208
    }
}

impl Default for AccAntiAliasing {
    fn default() -> (r: Self)
        ensures
            r == AccAntiAliasing::Hz100,
    {
        AccAntiAliasing::Hz100
    }
}

/// Mode of the inertial measurement unit.
#[derive(Copy, Clone, Debug, PartialEq, Eq, Structural)]
pub enum IMUMode {
    Disabled,
    GyroAccel,
    _Unknown0x02,
    MaybeRingcon,
}

impl IdEnum for IMUMode {
    open spec fn spec_from_u8(b: u8) -> Option<Self> {
        if b == 0 {
            Some(IMUMode::Disabled)
        } else if b == 1 {
            Some(IMUMode::GyroAccel)
        } else if b == 2 {
            Some(IMUMode::_Unknown0x02)
        } else if b == 3 {
            Some(IMUMode::MaybeRingcon)
        } else {
            None
        }
    }

    open spec fn spec_to_u8(self) -> u8 {
        match self {
            IMUMode::Disabled => 0,
            IMUMode::GyroAccel => 1,
            IMUMode::_Unknown0x02 => 2,
            IMUMode::MaybeRingcon => 3,
        }
    }

    fn from_u8(b: u8) -> (r: Option<Self>) {
        match b {
            0 => Some(IMUMode::Disabled),
            1 => Some(IMUMode::GyroAccel),
            2 => Some(IMUMode::_Unknown0x02),
            3 => Some(IMUMode::MaybeRingcon),
            _ => None,
        }
    }

    fn to_u8(self) -> (r: u8) {
        match self {
            IMUMode::Disabled => 0,
            IMUMode::GyroAccel => 1,
            IMUMode::_Unknown0x02 => 2,
            IMUMode::MaybeRingcon => 3,
        }
    }

    proof fn lemma_to_from(self) {
    }

    proof fn lemma_from_to(b: u8) {
    }
}

/// Sensitivity range of the gyroscope.
///
/// If using DPS2000 for example, the gyroscope can measure values of
/// up to +-2000 degree per second for a total range of 4000 DPS over
/// the 16 bit raw value.
#[derive(Copy, Clone, Debug, PartialEq, Eq, Structural)]
pub enum GyroSens {
    DPS250,
    DPS500,
    DPS1000,
    DPS2000,
}

impl IdEnum for GyroSens {
    open spec fn spec_from_u8(b: u8) -> Option<Self> {
        if b == 0 {
            Some(GyroSens::DPS250)
        } else if b == 1 {
            Some(GyroSens::DPS500)
        } else if b == 2 {
            Some(GyroSens::DPS1000)
        } else if b == 3 {
            Some(GyroSens::DPS2000)
        } else {
            None
        }
    }

    open spec fn spec_to_u8(self) -> u8 {
        match self {
            GyroSens::DPS250 => 0,
            GyroSens::DPS500 => 1,
            GyroSens::DPS1000 => 2,
            GyroSens::DPS2000 => 3,
        }
    }

    fn from_u8(b: u8) -> (r: Option<Self>) {
        match b {
            0 => Some(GyroSens::DPS250),
            1 => Some(GyroSens::DPS500),
            2 => Some(GyroSens::DPS1000),
            3 => Some(GyroSens::DPS2000),
            _ => None,
        }
    }

    fn to_u8(self) -> (r: u8) {
        match self {
            GyroSens::DPS250 => 0,
            GyroSens::DPS500 => 1,
            GyroSens::DPS1000 => 2,
            GyroSens::DPS2000 => 3,
        }
    }

    proof fn lemma_to_from(self) {
    }

    proof fn lemma_from_to(b: u8) {
    }
}

/// Sensitivity range of the accelerometer.
///
/// If using G4 for example, the accelerometer can measure values of
/// up to +-4G for a total range of 8G over the 16 bit raw value.
#[derive(Copy, Clone, Debug, PartialEq, Eq, Structural)]
pub enum AccSens {
    G8,
    G4,
    G2,
    G16,
}

impl IdEnum for AccSens {
    open spec fn spec_from_u8(b: u8) -> Option<Self> {
        if b == 0 {
            Some(AccSens::G8)
        } else if b == 1 {
            Some(AccSens::G4)
        } else if b == 2 {
            Some(AccSens::G2)
        } else if b == 3 {
            Some(AccSens::G16)
        } else {
            None
        }
    }

    open spec fn spec_to_u8(self) -> u8 {
        match self {
            AccSens::G8 => 0,
            AccSens::G4 => 1,
            AccSens::G2 => 2,
            AccSens::G16 => 3,
        }
    }

    fn from_u8(b: u8) -> (r: Option<Self>) {
        match b {
            0 => Some(AccSens::G8),
            1 => Some(AccSens::G4),
            2 => Some(AccSens::G2),
            3 => Some(AccSens::G16),
            _ => None,
        }
    }

    fn to_u8(self) -> (r: u8) {
        match self {
            AccSens::G8 => 0,
            AccSens::G4 => 1,
            AccSens::G2 => 2,
            AccSens::G16 => 3,
        }
    }

    proof fn lemma_to_from(self) {
    }

    proof fn lemma_from_to(b: u8) {
    }
}

/// Performance rate of the gyroscope.
#[derive(Copy, Clone, Debug, PartialEq, Eq, Structural)]
pub enum GyroPerfRate {
    Hz833,
    Hz208,
}

impl IdEnum for GyroPerfRate {
    open spec fn spec_from_u8(b: u8) -> Option<Self> {
        if b == 0 {
            Some(GyroPerfRate::Hz833)
        } else if b == 1 {
            Some(GyroPerfRate::Hz208)
        } else {
            None
        }
    }

    open spec fn spec_to_u8(self) -> u8 {
        match self {
            GyroPerfRate::Hz833 => 0,
            GyroPerfRate::Hz208 => 1,
        }
    }

    fn from_u8(b: u8) -> (r: Option<Self>) {
        match b {
            0 => Some(GyroPerfRate::Hz833),
            1 => Some(GyroPerfRate::Hz208),
            _ => None,
        }
    }

    fn to_u8(self) -> (r: u8) {
        match self {
            GyroPerfRate::Hz833 => 0,
            GyroPerfRate::Hz208 => 1,
        }
    }

    proof fn lemma_to_from(self) {
    }

    proof fn lemma_from_to(b: u8) {
    }
}

/// Anti-aliasing setting of the accelerometer.
///
/// Accelerations frequencies above the value are ignored using a low-pass filter.
#[derive(Copy, Clone, Debug, PartialEq, Eq, Structural)]
pub enum AccAntiAliasing {
    Hz200,
    Hz100,
}

impl IdEnum for AccAntiAliasing {
    open spec fn spec_from_u8(b: u8) -> Option<Self> {
        if b == 0 {
            Some(AccAntiAliasing::Hz200)
        } else if b == 1 {
            Some(AccAntiAliasing::Hz100)
        } else {
            None
        }
    }

    open spec fn spec_to_u8(self) -> u8 {
        match self {
            AccAntiAliasing::Hz200 => 0,
            AccAntiAliasing::Hz100 => 1,
        }
    }

    fn from_u8(b: u8) -> (r: Option<Self>) {
        match b {
            0 => Some(AccAntiAliasing::Hz200),
            1 => Some(AccAntiAliasing::Hz100),
            _ => None,
        }
    }

    fn to_u8(self) -> (r: u8) {
        match self {
            AccAntiAliasing::Hz200 => 0,
            AccAntiAliasing::Hz100 => 1,
        }
    }

    proof fn lemma_to_from(self) {
    }

    proof fn lemma_from_to(b: u8) {
    }
}

} // verus!
