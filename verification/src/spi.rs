//! The SPI flash of the controller: read and write requests, and the
//! calibration and color data stored in it.
use crate::bytes::{le_u32, read_u32_le, write_u32_le};
use crate::common::{I16LE, IdEnum, RawId};
use crate::input::UseSPIColors;
use vstd::prelude::*;
use vstd::std_specs::convert::FromSpecImpl;

verus! {

/// A range of the SPI flash: address and size.
#[derive(Copy, Clone, Debug, PartialEq, Eq, Structural)]
pub struct SPIRange(pub u32, pub u8);

/// Data stored at a fixed range of the SPI flash.
pub trait SPI: Sized {
    spec fn spec_range() -> SPIRange;

    /// The value in the first bytes of the data of a read.
    spec fn spec_from_data(data: Seq<u8>) -> Self;

    /// Whether the data of a read holds a value of this type.
    spec fn spec_data_ok(data: Seq<u8>) -> bool;

    fn range() -> (r: SPIRange)
        ensures
            r == Self::spec_range(),
    ;

    /// Whether the data of a read holds a value of this type.
    fn data_ok(data: &[u8; 29]) -> (r: bool)
        ensures
            r == Self::spec_data_ok(data@),
    ;

    fn from_data(data: &[u8; 29]) -> (r: Self)
        requires
            Self::spec_data_ok(data@),
        ensures
            r == Self::spec_from_data(data@),
    ;

    /// The value read, if the read was of this type's range.
    fn try_from(value: SPIReadResult) -> (r: Result<Self, WrongRangeError>)
        requires
            value.spec_range() == Self::spec_range() ==> Self::spec_data_ok(value.data@),
        ensures
            r == (if value.spec_range() == Self::spec_range() {
                Ok(Self::spec_from_data(value.data@))
            } else {
                Err(WrongRangeError { expected: Self::spec_range(), got: value.spec_range() })
            }),
    {
        let range = value.range();
        if range == Self::range() {
            Ok(Self::from_data(&value.data))
        } else {
            Err(WrongRangeError { expected: Self::range(), got: range })
        }
    }
}

/// A read that answered another range than the one expected.
#[derive(Debug, Clone, Copy)]
pub struct WrongRangeError {
    pub expected: SPIRange,
    pub got: SPIRange,
}

/// A request to read a range: address little-endian, then size.
#[derive(Copy, Clone, Debug)]
pub struct SPIReadRequest {
    pub offset: [u8; 4],
    pub size: u8,
}

/// The four little-endian bytes of `n`.
pub open spec fn u32_le_bytes(n: u32) -> Seq<u8> {
    seq![
        (n % 0x100) as u8,
        ((n / 0x100) % 0x100) as u8,
        ((n / 0x10000) % 0x100) as u8,
        (n / 0x1000000) as u8,
    ]
}

impl SPIReadRequest {
    /// The five bytes on the wire.
    pub open spec fn spec_bytes(self) -> Seq<u8> {
        self.offset@.push(self.size)
    }

    /// The five bytes on the wire.
    pub fn bytes(&self) -> (r: [u8; 5])
        ensures
            r@ == self.spec_bytes(),
    {
        let r = [self.offset[0], self.offset[1], self.offset[2], self.offset[3], self.size];
        assert(r@ =~= self.spec_bytes());
        r
    }

    pub fn new(range: SPIRange) -> (r: SPIReadRequest)
        requires
            range.1 <= 0x1d,
        ensures
            r.offset@ == u32_le_bytes(range.0),
            r.size == range.1,
    {
        SPIReadRequest { offset: write_u32_le(range.0), size: range.1 }
    }
}

/// A request to write a range: address little-endian, size, then the data.
#[derive(Copy, Clone, Debug)]
pub struct SPIWriteRequest {
    pub address: [u8; 4],
    pub size: u8,
    pub data: [u8; 29],
}

impl SPIWriteRequest {
    /// The 34 bytes on the wire.
    pub open spec fn spec_bytes(self) -> Seq<u8> {
        self.address@.push(self.size) + self.data@
    }

    /// The 34 bytes on the wire.
    pub fn bytes(&self) -> (r: [u8; 34])
        ensures
            r@ == self.spec_bytes(),
    {
        let mut r = [0u8; 34];
        r[0] = self.address[0];
        r[1] = self.address[1];
        r[2] = self.address[2];
        r[3] = self.address[3];
        r[4] = self.size;
        let mut i: usize = 0;
        while i < 29
            invariant
                i <= 29,
                r@.len() == 34,
                forall|j: int| 0 <= j < 5 ==> r@[j] == self.spec_bytes()[j],
                forall|j: int| 5 <= j < 5 + i ==> r@[j] == self.spec_bytes()[j],
            decreases 29 - i,
        {
            r[5 + i] = self.data[i];
            i += 1;
        }
        assert(r@ =~= self.spec_bytes());
        r
    }

    /// The request writing `data`, padded with zeros, to `range`.
    fn with_data(range: SPIRange, data: &[u8]) -> (r: SPIWriteRequest)
        requires
            data@.len() <= 29,
        ensures
            r.address@ == u32_le_bytes(range.0),
            r.size == range.1,
            r.data@ == data@ + crate::bytes::zeros((29 - data@.len()) as nat),
    {
        let mut buf = [0u8; 29];
        let mut i: usize = 0;
        while i < data.len()
            invariant
                i <= data@.len() <= 29,
                buf@.len() == 29,
                forall|j: int| 0 <= j < i ==> buf@[j] == data@[j],
                forall|j: int| i <= j < 29 ==> buf@[j] == 0,
            decreases data@.len() - i,
        {
            buf[i] = data[i];
            i += 1;
        }
        assert(buf@ =~= data@ + crate::bytes::zeros((29 - data@.len()) as nat));
        SPIWriteRequest { address: write_u32_le(range.0), size: range.1, data: buf }
    }
}

/// The result of a read: address little-endian, size, then the data.
#[derive(Copy, Clone, Debug)]
pub struct SPIReadResult {
    pub address: [u8; 4],
    pub size: u8,
    pub data: [u8; 29],
}

impl SPIReadResult {
    pub open spec fn spec_range(self) -> SPIRange {
        SPIRange(le_u32(self.address@), self.size)
    }

    /// The range that was read.
    pub fn range(&self) -> (r: SPIRange)
        ensures
            r == self.spec_range(),
    {
        SPIRange(read_u32_le(&self.address), self.size)
    }

    /// The data read, whatever the range.
    pub fn raw(&self) -> (r: [u8; 0x1D])
        ensures
            r == self.data,
    {
        self.data
    }
}

/// The result of a write.
#[derive(Copy, Clone, Debug)]
pub struct SPIWriteResult {
    pub status: u8,
}

impl SPIWriteResult {
    pub fn success(&self) -> (r: bool)
        ensures
            r == (self.status == 0),
    {
        self.status == 0
    }
}

impl SPI for UseSPIColors {
    open spec fn spec_range() -> SPIRange {
        SPIRange(0x601B, 1)
    }

    open spec fn spec_from_data(data: Seq<u8>) -> Self {
        UseSPIColors::spec_from_u8(data[0]).unwrap()
    }

    open spec fn spec_data_ok(data: Seq<u8>) -> bool {
        UseSPIColors::spec_from_u8(data[0]) is Some
    }

    fn data_ok(data: &[u8; 29]) -> (r: bool) {
        RawId::<UseSPIColors>::from_raw(data[0]).try_into().is_some()
    }

    fn range() -> (r: SPIRange) {
        SPIRange(0x601B, 1)
    }

    fn from_data(data: &[u8; 29]) -> (r: Self) {
        RawId::<UseSPIColors>::from_raw(data[0]).try_into().unwrap()
    }
}

impl UseSPIColors {
    /// The write of the setting to its range.
    pub fn write_request(self) -> (r: SPIWriteRequest)
        ensures
            r.address@ == u32_le_bytes(0x601B),
            r.size == 1,
            r.data@ == seq![self.spec_to_u8()] + crate::bytes::zeros(28),
    {
        let data = [self.to_u8()];
        SPIWriteRequest::with_data(SPIRange(0x601B, 1), &data)
    }
}

/// The factory calibration of both sticks.
#[derive(Copy, Clone, Debug)]
pub struct SticksCalibration {
    pub left: LeftStickCalibration,
    pub right: RightStickCalibration,
}

impl SPI for SticksCalibration {
    open spec fn spec_range() -> SPIRange {
        SPIRange(0x603D, 0x12)
    }

    open spec fn spec_from_data(d: Seq<u8>) -> Self {
        SticksCalibration {
            left: LeftStickCalibration {
                max: [d[0], d[1], d[2]],
                center: [d[3], d[4], d[5]],
                min: [d[6], d[7], d[8]],
            },
            right: RightStickCalibration {
                center: [d[9], d[10], d[11]],
                min: [d[12], d[13], d[14]],
                max: [d[15], d[16], d[17]],
            },
        }
    }

    open spec fn spec_data_ok(data: Seq<u8>) -> bool {
        true
    }

    fn data_ok(data: &[u8; 29]) -> (r: bool) {
        true
    }

    fn range() -> (r: SPIRange) {
        SPIRange(0x603D, 0x12)
    }

    fn from_data(d: &[u8; 29]) -> (r: Self) {
        SticksCalibration {
            left: LeftStickCalibration {
                max: [d[0], d[1], d[2]],
                center: [d[3], d[4], d[5]],
                min: [d[6], d[7], d[8]],
            },
            right: RightStickCalibration {
                center: [d[9], d[10], d[11]],
                min: [d[12], d[13], d[14]],
                max: [d[15], d[16], d[17]],
            },
        }
    }
}

/// The user calibration of both sticks.
#[derive(Copy, Clone, Debug)]
pub struct UserSticksCalibration {
    pub left: UserStickCalibration,
    pub right: UserStickCalibration,
}

impl SPI for UserSticksCalibration {
    open spec fn spec_range() -> SPIRange {
        SPIRange(0x8010, 0x16)
    }

    open spec fn spec_from_data(d: Seq<u8>) -> Self {
        UserSticksCalibration {
            left: UserStickCalibration {
                magic: [d[0], d[1]],
                calib: LeftStickCalibration {
                    max: [d[2], d[3], d[4]],
                    center: [d[5], d[6], d[7]],
                    min: [d[8], d[9], d[10]],
                },
            },
            right: UserStickCalibration {
                magic: [d[11], d[12]],
                calib: LeftStickCalibration {
                    max: [d[13], d[14], d[15]],
                    center: [d[16], d[17], d[18]],
                    min: [d[19], d[20], d[21]],
                },
            },
        }
    }

    open spec fn spec_data_ok(data: Seq<u8>) -> bool {
        true
    }

    fn data_ok(data: &[u8; 29]) -> (r: bool) {
        true
    }

    fn range() -> (r: SPIRange) {
        SPIRange(0x8010, 0x16)
    }

    fn from_data(d: &[u8; 29]) -> (r: Self) {
        UserSticksCalibration {
            left: UserStickCalibration {
                magic: [d[0], d[1]],
                calib: LeftStickCalibration {
                    max: [d[2], d[3], d[4]],
                    center: [d[5], d[6], d[7]],
                    min: [d[8], d[9], d[10]],
                },
            },
            right: UserStickCalibration {
                magic: [d[11], d[12]],
                calib: LeftStickCalibration {
                    max: [d[13], d[14], d[15]],
                    center: [d[16], d[17], d[18]],
                    min: [d[19], d[20], d[21]],
                },
            },
        }
    }
}

/// The horizontal value in three packed 12-bit bytes: the low 12 bits.
pub open spec fn conv_x(raw: [u8; 3]) -> u16 {
    ((raw[1] % 16) as int * 256 + raw[0] as int) as u16
}

/// The vertical value in three packed 12-bit bytes: the high 12 bits.
pub open spec fn conv_y(raw: [u8; 3]) -> u16 {
    (raw[2] as int * 16 + raw[1] as int / 16) as u16
}

fn conv_x_exec(raw: [u8; 3]) -> (r: u16)
    ensures
        r == conv_x(raw),
        r <= 0xFFF,
{
    (raw[1] % 16) as u16 * 256 + raw[0] as u16
}

fn conv_y_exec(raw: [u8; 3]) -> (r: u16)
    ensures
        r == conv_y(raw),
        r <= 0xFFF,
{
    raw[2] as u16 * 16 + (raw[1] / 16) as u16
}

/// The smaller of `a` and `b`.
pub open spec fn min_u16(a: int, b: int) -> u16 {
    (if a < b {
        a
    } else {
        b
    }) as u16
}

/// `a - b`, or 0 below zero.
pub open spec fn sat_sub(a: u16, b: u16) -> u16 {
    if a >= b {
        (a - b) as u16
    } else {
        0
    }
}

/// The calibration of a stick: extents above the center, the center, and
/// extents below it, each as two 12-bit values.
#[derive(Copy, Clone, Debug)]
pub struct LeftStickCalibration {
    pub max: [u8; 3],
    pub center: [u8; 3],
    pub min: [u8; 3],
}

impl Default for LeftStickCalibration {
    fn default() -> (r: Self)
        ensures
            r.max@ == seq![0u8, 0, 0] && r.center@ == seq![0u8, 0, 0] && r.min@ == seq![0u8, 0, 0],
    {
        let r = LeftStickCalibration { max: [0; 3], center: [0; 3], min: [0; 3] };
        assert(r.max@ =~= seq![0u8, 0, 0]);
        assert(r.center@ =~= seq![0u8, 0, 0]);
        assert(r.min@ =~= seq![0u8, 0, 0]);
        r
    }
}

impl LeftStickCalibration {
    pub open spec fn spec_center(self) -> (u16, u16) {
        (conv_x(self.center), conv_y(self.center))
    }

    pub open spec fn spec_max(self) -> (u16, u16) {
        (
            min_u16(conv_x(self.center) + conv_x(self.max), 0xFFF),
            min_u16(conv_y(self.center) + conv_y(self.max), 0xFFF),
        )
    }

    pub open spec fn spec_min(self) -> (u16, u16) {
        (sat_sub(conv_x(self.center), conv_x(self.min)), sat_sub(conv_y(self.center), conv_y(self.min)))
    }

    fn conv_x(&self, raw: [u8; 3]) -> (r: u16)
        ensures
            r == conv_x(raw),
    {
        conv_x_exec(raw)
    }

    fn conv_y(&self, raw: [u8; 3]) -> (r: u16)
        ensures
            r == conv_y(raw),
    {
        conv_y_exec(raw)
    }

    /// The highest values, capped at 0xFFF.
    pub fn max(&self) -> (r: (u16, u16))
        ensures
            r == self.spec_max(),
    {
        let center = self.center();
        let x = center.0 + self.conv_x(self.max);
        let y = center.1 + self.conv_y(self.max);
        (if x < 0xFFF { x } else { 0xFFF }, if y < 0xFFF { y } else { 0xFFF })
    }

    pub fn center(&self) -> (r: (u16, u16))
        ensures
            r == self.spec_center(),
    {
        (self.conv_x(self.center), self.conv_y(self.center))
    }

    /// The lowest values, floored at 0.
    pub fn min(&self) -> (r: (u16, u16))
        ensures
            r == self.spec_min(),
    {
        let center = self.center();
        (center.0.saturating_sub(self.conv_x(self.min)), center.1.saturating_sub(self.conv_y(self.min)))
    }
}

/// The calibration of the right stick: the center, extents below it and
/// extents above it, each as two 12-bit values.
#[derive(Copy, Clone, Debug)]
pub struct RightStickCalibration {
    pub center: [u8; 3],
    pub min: [u8; 3],
    pub max: [u8; 3],
}

impl Default for RightStickCalibration {
    fn default() -> (r: Self)
        ensures
            r.max@ == seq![0u8, 0, 0] && r.center@ == seq![0u8, 0, 0] && r.min@ == seq![0u8, 0, 0],
    {
        let r = RightStickCalibration { center: [0; 3], min: [0; 3], max: [0; 3] };
        assert(r.max@ =~= seq![0u8, 0, 0]);
        assert(r.center@ =~= seq![0u8, 0, 0]);
        assert(r.min@ =~= seq![0u8, 0, 0]);
        r
    }
}

impl RightStickCalibration {
    pub open spec fn spec_center(self) -> (u16, u16) {
        (conv_x(self.center), conv_y(self.center))
    }

    pub open spec fn spec_max(self) -> (u16, u16) {
        (
            min_u16(conv_x(self.center) + conv_x(self.max), 0xFFF),
            min_u16(conv_y(self.center) + conv_y(self.max), 0xFFF),
        )
    }

    pub open spec fn spec_min(self) -> (u16, u16) {
        (sat_sub(conv_x(self.center), conv_x(self.min)), sat_sub(conv_y(self.center), conv_y(self.min)))
    }

    fn conv_x(&self, raw: [u8; 3]) -> (r: u16)
        ensures
            r == conv_x(raw),
    {
        conv_x_exec(raw)
    }

    fn conv_y(&self, raw: [u8; 3]) -> (r: u16)
        ensures
            r == conv_y(raw),
    {
        conv_y_exec(raw)
    }

    /// The highest values, capped at 0xFFF.
    pub fn max(&self) -> (r: (u16, u16))
        ensures
            r == self.spec_max(),
    {
        let center = self.center();
        let x = center.0 + self.conv_x(self.max);
        let y = center.1 + self.conv_y(self.max);
        (if x < 0xFFF { x } else { 0xFFF }, if y < 0xFFF { y } else { 0xFFF })
    }

    pub fn center(&self) -> (r: (u16, u16))
        ensures
            r == self.spec_center(),
    {
        (self.conv_x(self.center), self.conv_y(self.center))
    }

    /// The lowest values, floored at 0.
    pub fn min(&self) -> (r: (u16, u16))
        ensures
            r == self.spec_min(),
    {
        let center = self.center();
        (center.0.saturating_sub(self.conv_x(self.min)), center.1.saturating_sub(self.conv_y(self.min)))
    }
}

/// The calibration of a stick ranges from min to max through the center, and
/// stays within 12 bits.
pub proof fn law_stick_calibration_ordered(c: LeftStickCalibration, r: RightStickCalibration)
    ensures
        c.spec_min().0 <= c.spec_center().0 <= c.spec_max().0 <= 0xFFF,
        c.spec_min().1 <= c.spec_center().1 <= c.spec_max().1 <= 0xFFF,
        r.spec_min().0 <= r.spec_center().0 <= r.spec_max().0 <= 0xFFF,
        r.spec_min().1 <= r.spec_center().1 <= r.spec_max().1 <= 0xFFF,
{
}

/// Each of the three fields packs two 12-bit values in three bytes: the
/// horizontal one in the first byte and the low nibble of the second, the
/// vertical one in the high nibble of the second and the third byte. The
/// center is the center; the horizontal maximum is the center plus the
/// horizontal extent above it, capped at 0xFFF, and the minimum the center
/// less the extent below it, floored at 0; the same for the vertical values.
/// So a horizontal bound depends on horizontal values alone, and a vertical
/// one on vertical values alone.
pub proof fn law_stick_extents(c: LeftStickCalibration, r: RightStickCalibration)
    ensures
        ({
            let cx = c.center[0] + (c.center[1] % 16) * 256;
            let cy = c.center[1] / 16 + c.center[2] * 16;
            let hi_x = c.max[0] + (c.max[1] % 16) * 256;
            let hi_y = c.max[1] / 16 + c.max[2] * 16;
            let lo_x = c.min[0] + (c.min[1] % 16) * 256;
            let lo_y = c.min[1] / 16 + c.min[2] * 16;
            &&& c.spec_center().0 == cx && c.spec_center().1 == cy
            &&& c.spec_max().0 == (if cx + hi_x <= 0xFFF { cx + hi_x } else { 0xFFF })
            &&& c.spec_max().1 == (if cy + hi_y <= 0xFFF { cy + hi_y } else { 0xFFF })
            &&& c.spec_min().0 == (if cx >= lo_x { cx - lo_x } else { 0 })
            &&& c.spec_min().1 == (if cy >= lo_y { cy - lo_y } else { 0 })
        }),
        ({
            let cx = r.center[0] + (r.center[1] % 16) * 256;
            let cy = r.center[1] / 16 + r.center[2] * 16;
            let hi_x = r.max[0] + (r.max[1] % 16) * 256;
            let hi_y = r.max[1] / 16 + r.max[2] * 16;
            let lo_x = r.min[0] + (r.min[1] % 16) * 256;
            let lo_y = r.min[1] / 16 + r.min[2] * 16;
            &&& r.spec_center().0 == cx && r.spec_center().1 == cy
            &&& r.spec_max().0 == (if cx + hi_x <= 0xFFF { cx + hi_x } else { 0xFFF })
            &&& r.spec_max().1 == (if cy + hi_y <= 0xFFF { cy + hi_y } else { 0xFFF })
            &&& r.spec_min().0 == (if cx >= lo_x { cx - lo_x } else { 0 })
            &&& r.spec_min().1 == (if cy >= lo_y { cy - lo_y } else { 0 })
        }),
{
}

/// The bytes that mark a user calibration as present.
pub const USER_CALIB_MAGIC: [u8; 2] = [0xB2, 0xA1];

/// A user calibration of a stick, present when the magic bytes are there.
#[derive(Copy, Clone, Debug)]
pub struct UserStickCalibration {
    pub magic: [u8; 2],
    pub calib: LeftStickCalibration,
}

impl UserStickCalibration {
    pub open spec fn has_magic(self) -> bool {
        self.magic[0] == 0xB2 && self.magic[1] == 0xA1
    }

    fn is_set(&self) -> (r: bool)
        ensures
            r == self.has_magic(),
    {
        self.magic[0] == USER_CALIB_MAGIC[0] && self.magic[1] == USER_CALIB_MAGIC[1]
    }

    pub fn calib(&self) -> (r: Option<LeftStickCalibration>)
        ensures
            r == (if self.has_magic() { Some(self.calib) } else { None }),
    {
        if self.is_set() {
            Some(self.calib)
        } else {
            None
        }
    }

    pub fn max(&self) -> (r: Option<(u16, u16)>)
        ensures
            r == (if self.has_magic() { Some(self.calib.spec_max()) } else { None }),
    {
        if self.is_set() {
            Some(self.calib.max())
        } else {
            None
        }
    }

    pub fn center(&self) -> (r: Option<(u16, u16)>)
        ensures
            r == (if self.has_magic() { Some(self.calib.spec_center()) } else { None }),
    {
        if self.is_set() {
            Some(self.calib.center())
        } else {
            None
        }
    }

    pub fn min(&self) -> (r: Option<(u16, u16)>)
        ensures
            r == (if self.has_magic() { Some(self.calib.spec_min()) } else { None }),
    {
        if self.is_set() {
            Some(self.calib.min())
        } else {
            None
        }
    }
}

/// The factory calibration of the accelerometer and gyroscope: offsets and
/// factors on each axis.
#[derive(Copy, Clone, Debug)]
pub struct SensorCalibration {
    pub acc_orig: [I16LE; 3],
    pub acc_sens: [I16LE; 3],
    pub gyro_orig: [I16LE; 3],
    pub gyro_sens: [I16LE; 3],
}

impl Default for SensorCalibration {
    fn default() -> (r: Self)
        ensures
            r == SensorCalibration::zero(),
    {
        let z = I16LE([0, 0]);
        SensorCalibration { acc_orig: [z, z, z], acc_sens: [z, z, z], gyro_orig: [z, z, z], gyro_sens: [z, z, z] }
    }
}

/// The three values stored from `off` in `d`.
pub open spec fn i16le3(d: Seq<u8>, off: int) -> [I16LE; 3] {
    [I16LE([d[off], d[off + 1]]), I16LE([d[off + 2], d[off + 3]]), I16LE([d[off + 4], d[off + 5]])]
}

fn i16le3_exec(d: &[u8; 29], off: usize) -> (r: [I16LE; 3])
    requires
        off + 6 <= 29,
    ensures
        r == i16le3(d@, off as int),
{
    [I16LE([d[off], d[off + 1]]), I16LE([d[off + 2], d[off + 3]]), I16LE([d[off + 4], d[off + 5]])]
}

impl SensorCalibration {
    pub open spec fn zero() -> SensorCalibration {
        SensorCalibration {
            acc_orig: [I16LE([0, 0]), I16LE([0, 0]), I16LE([0, 0])],
            acc_sens: [I16LE([0, 0]), I16LE([0, 0]), I16LE([0, 0])],
            gyro_orig: [I16LE([0, 0]), I16LE([0, 0]), I16LE([0, 0])],
            gyro_sens: [I16LE([0, 0]), I16LE([0, 0]), I16LE([0, 0])],
        }
    }

    /// The calibration in the 24 bytes of `d` from `off`.
    pub open spec fn parse(d: Seq<u8>, off: int) -> SensorCalibration {
        SensorCalibration {
            acc_orig: i16le3(d, off),
            acc_sens: i16le3(d, off + 6),
            gyro_orig: i16le3(d, off + 12),
            gyro_sens: i16le3(d, off + 18),
        }
    }

    /// The 24 bytes on the wire.
    pub open spec fn spec_bytes(self) -> Seq<u8> {
        Seq::new(
            24,
            |j: int|
                {
                    let v = if j < 6 {
                        self.acc_orig
                    } else if j < 12 {
                        self.acc_sens
                    } else if j < 18 {
                        self.gyro_orig
                    } else {
                        self.gyro_sens
                    };
                    v[(j % 6) / 2].0[j % 2]
                },
        )
    }
}

impl SPI for SensorCalibration {
    open spec fn spec_range() -> SPIRange {
        SPIRange(0x6020, 0x18)
    }

    open spec fn spec_from_data(d: Seq<u8>) -> Self {
        SensorCalibration::parse(d, 0)
    }

    open spec fn spec_data_ok(data: Seq<u8>) -> bool {
        true
    }

    fn data_ok(data: &[u8; 29]) -> (r: bool) {
        true
    }

    fn range() -> (r: SPIRange) {
        SPIRange(0x6020, 0x18)
    }

    fn from_data(d: &[u8; 29]) -> (r: Self) {
        SensorCalibration {
            acc_orig: i16le3_exec(d, 0),
            acc_sens: i16le3_exec(d, 6),
            gyro_orig: i16le3_exec(d, 12),
            gyro_sens: i16le3_exec(d, 18),
        }
    }
}

/// A user calibration of the accelerometer and gyroscope, present when the
/// magic bytes are there.
#[derive(Copy, Clone, Debug)]
pub struct UserSensorCalibration {
    pub magic: [u8; 2],
    pub calib: SensorCalibration,
}

impl Default for UserSensorCalibration {
    fn default() -> (r: Self)
        ensures
            r.magic == [0u8, 0u8],
            r.calib == SensorCalibration::zero(),
    {
        UserSensorCalibration { magic: [0, 0], calib: SensorCalibration::default() }
    }
}

impl SPI for UserSensorCalibration {
    open spec fn spec_range() -> SPIRange {
        SPIRange(0x8026, 0x1A)
    }

    open spec fn spec_from_data(d: Seq<u8>) -> Self {
        UserSensorCalibration { magic: [d[0], d[1]], calib: SensorCalibration::parse(d, 2) }
    }

    open spec fn spec_data_ok(data: Seq<u8>) -> bool {
        true
    }

    fn data_ok(data: &[u8; 29]) -> (r: bool) {
        true
    }

    fn range() -> (r: SPIRange) {
        SPIRange(0x8026, 0x1A)
    }

    fn from_data(d: &[u8; 29]) -> (r: Self) {
        UserSensorCalibration {
            magic: [d[0], d[1]],
            calib: SensorCalibration {
                acc_orig: i16le3_exec(d, 2),
                acc_sens: i16le3_exec(d, 8),
                gyro_orig: i16le3_exec(d, 14),
                gyro_sens: i16le3_exec(d, 20),
            },
        }
    }
}

impl From<SensorCalibration> for UserSensorCalibration {
    fn from(calib: SensorCalibration) -> (r: Self) {
        UserSensorCalibration { magic: USER_CALIB_MAGIC, calib }
    }
}

impl FromSpecImpl<SensorCalibration> for UserSensorCalibration {
    open spec fn obeys_from_spec() -> bool {
        true
    }

    open spec fn from_spec(calib: SensorCalibration) -> UserSensorCalibration {
        UserSensorCalibration::of(calib)
    }
}

impl UserSensorCalibration {
    /// The user calibration holding `calib`.
    pub open spec fn of(calib: SensorCalibration) -> UserSensorCalibration {
        UserSensorCalibration { magic: [0xB2, 0xA1], calib }
    }

    pub open spec fn has_magic(self) -> bool {
        self.magic[0] == 0xB2 && self.magic[1] == 0xA1
    }

    pub fn calib(&self) -> (r: Option<SensorCalibration>)
        ensures
            r == (if self.has_magic() { Some(self.calib) } else { None }),
    {
        if self.magic[0] == USER_CALIB_MAGIC[0] && self.magic[1] == USER_CALIB_MAGIC[1] {
            Some(self.calib)
        } else {
            None
        }
    }

    /// The 26 bytes on the wire.
    pub open spec fn spec_bytes(self) -> Seq<u8> {
        self.magic@ + self.calib.spec_bytes()
    }

    fn bytes(&self) -> (r: [u8; 26])
        ensures
            r@ == self.spec_bytes(),
    {
        let mut r = [0u8; 26];
        r[0] = self.magic[0];
        r[1] = self.magic[1];
        let groups = [self.calib.acc_orig, self.calib.acc_sens, self.calib.gyro_orig, self.calib.gyro_sens];
        let mut g: usize = 0;
        while g < 4
            invariant
                g <= 4,
                r@.len() == 26,
                groups@ == seq![self.calib.acc_orig, self.calib.acc_sens, self.calib.gyro_orig, self.calib.gyro_sens],
                forall|j: int| 0 <= j < 2 + 6 * g ==> r@[j] == #[trigger] self.spec_bytes()[j],
            decreases 4 - g,
        {
            let v = groups[g];
            r[2 + 6 * g] = v[0].0[0];
            r[3 + 6 * g] = v[0].0[1];
            r[4 + 6 * g] = v[1].0[0];
            r[5 + 6 * g] = v[1].0[1];
            r[6 + 6 * g] = v[2].0[0];
            r[7 + 6 * g] = v[2].0[1];
            g += 1;
        }
        assert(r@ =~= self.spec_bytes());
        r
    }

    /// The write of the calibration to its range.
    pub fn write_request(self) -> (r: SPIWriteRequest)
        ensures
            r.address@ == u32_le_bytes(0x8026),
            r.size == 0x1A,
            r.data@ == self.spec_bytes() + crate::bytes::zeros(3),
    {
        let bytes = self.bytes();
        SPIWriteRequest::with_data(SPIRange(0x8026, 0x1A), &bytes)
    }
}

/// A user calibration made from a factory one is present, and holds it.
pub proof fn law_user_calibration_from(calib: SensorCalibration)
    ensures
        UserSensorCalibration::of(calib).has_magic(),
        UserSensorCalibration::of(calib).calib == calib,
{
}

/// A color: red, green, blue.
#[derive(Copy, Clone, Debug, Default, PartialEq, Eq, Structural)]
pub struct Color(pub u8, pub u8, pub u8);

/// The colors of the controller.
#[derive(Copy, Clone, Debug, Default)]
pub struct ControllerColor {
    pub body: Color,
    pub buttons: Color,
    pub left_grip: Color,
    pub right_grip: Color,
}

impl ControllerColor {
    /// The twelve bytes on the wire.
    pub open spec fn spec_bytes(self) -> Seq<u8> {
        seq![
            self.body.0, self.body.1, self.body.2,
            self.buttons.0, self.buttons.1, self.buttons.2,
            self.left_grip.0, self.left_grip.1, self.left_grip.2,
            self.right_grip.0, self.right_grip.1, self.right_grip.2,
        ]
    }

    fn bytes(&self) -> (r: [u8; 12])
        ensures
            r@ == self.spec_bytes(),
    {
        let r = [
            self.body.0, self.body.1, self.body.2,
            self.buttons.0, self.buttons.1, self.buttons.2,
            self.left_grip.0, self.left_grip.1, self.left_grip.2,
            self.right_grip.0, self.right_grip.1, self.right_grip.2,
        ];
        assert(r@ =~= self.spec_bytes());
        r
    }

    /// The write of the colors to their range.
    pub fn write_request(self) -> (r: SPIWriteRequest)
        ensures
            r.address@ == u32_le_bytes(0x6050),
            r.size == 12,
            r.data@ == self.spec_bytes() + crate::bytes::zeros(17),
    {
        let bytes = self.bytes();
        SPIWriteRequest::with_data(SPIRange(0x6050, 12), &bytes)
    }
}

impl SPI for ControllerColor {
    open spec fn spec_range() -> SPIRange {
        SPIRange(0x6050, 12)
    }

    open spec fn spec_from_data(d: Seq<u8>) -> Self {
        ControllerColor {
            body: Color(d[0], d[1], d[2]),
            buttons: Color(d[3], d[4], d[5]),
            left_grip: Color(d[6], d[7], d[8]),
            right_grip: Color(d[9], d[10], d[11]),
        }
    }

    open spec fn spec_data_ok(data: Seq<u8>) -> bool {
        true
    }

    fn data_ok(data: &[u8; 29]) -> (r: bool) {
        true
    }

    fn range() -> (r: SPIRange) {
        SPIRange(0x6050, 12)
    }

    fn from_data(d: &[u8; 29]) -> (r: Self) {
        ControllerColor {
            body: Color(d[0], d[1], d[2]),
            buttons: Color(d[3], d[4], d[5]),
            left_grip: Color(d[6], d[7], d[8]),
            right_grip: Color(d[9], d[10], d[11]),
        }
    }
}

} // verus!
