//! Input reports sent by the controller.
use crate::accessory::AccessoryResponse;
use crate::bytes::sub_array;
use crate::common::{IdEnum, InputReportId, RawId, SubcommandId, JOYCON_L_BT, JOYCON_R_BT, PRO_CONTROLLER};
use crate::imu::Frame;
use crate::mcu::{MCUReport, MCUReportId};
use crate::spi::SPIReadResult;
use core::marker::PhantomData;
use vstd::prelude::*;
use vstd::string::StringExecFns;

verus! {

/// The text `s` if `c` holds, else nothing.
pub open spec fn shown(c: bool, s: Seq<char>) -> Seq<char> {
    if c {
        s
    } else {
        Seq::empty()
    }
}

/// Appends `s` to `out` if `c` holds.
fn append_if(out: &mut String, c: bool, s: &str)
    ensures
        final(out)@ == old(out)@ + shown(c, s@),
{
    if c {
        out.append(s);
    } else {
        assert(out@ =~= out@ + shown(c, s@));
    }
}

/// The state of the buttons.
#[derive(Copy, Clone, Debug, Default)]
pub struct ButtonsStatus {
    pub right: RightButtons,
    pub middle: MiddleButtons,
    pub left: LeftButtons,
}

impl ButtonsStatus {
    /// The pressed buttons, each preceded by a space.
    pub open spec fn text(self) -> Seq<char> {
        self.text_middle(self.text_sides(self.text_shoulders(self.text_dpad(self.text_face(Seq::empty())))))
    }

    pub open spec fn text_face(self, before: Seq<char>) -> Seq<char> {
        before
        + shown((self.right.0 / 8) % 2 == 1, " A"@)
        + shown((self.right.0 / 4) % 2 == 1, " B"@)
        + shown((self.right.0 / 2) % 2 == 1, " X"@)
        + shown(self.right.0 % 2 == 1, " Y"@)
    }

    pub open spec fn text_dpad(self, before: Seq<char>) -> Seq<char> {
        before
        + shown((self.left.0 / 2) % 2 == 1, " UP"@)
        + shown(self.left.0 % 2 == 1, " DOWN"@)
        + shown((self.left.0 / 8) % 2 == 1, " LEFT"@)
        + shown((self.left.0 / 4) % 2 == 1, " RIGHT"@)
    }

    pub open spec fn text_shoulders(self, before: Seq<char>) -> Seq<char> {
        before
        + shown((self.left.0 / 64) % 2 == 1, " L"@)
        + shown((self.left.0 / 128) % 2 == 1, " ZL"@)
        + shown((self.right.0 / 64) % 2 == 1, " R"@)
        + shown((self.right.0 / 128) % 2 == 1, " ZR"@)
    }

    pub open spec fn text_sides(self, before: Seq<char>) -> Seq<char> {
        before
        + shown((self.left.0 / 32) % 2 == 1 || (self.right.0 / 32) % 2 == 1, " SR"@)
        + shown((self.left.0 / 16) % 2 == 1 || (self.right.0 / 16) % 2 == 1, " SR"@)
    }

    pub open spec fn text_middle(self, before: Seq<char>) -> Seq<char> {
        before
        + shown((self.middle.0 / 8) % 2 == 1, " L3"@)
        + shown((self.middle.0 / 4) % 2 == 1, " R3"@)
        + shown(self.middle.0 % 2 == 1, " -"@)
        + shown((self.middle.0 / 2) % 2 == 1, " +"@)
        + shown((self.middle.0 / 32) % 2 == 1, " CAPTURE"@)
        + shown((self.middle.0 / 16) % 2 == 1, " HOME"@)
    }

    fn append_face(&self, out: &mut String)
        ensures
            final(out)@ == self.text_face(old(out)@),
    {
        append_if(out, self.right.a(), " A");
        append_if(out, self.right.b(), " B");
        append_if(out, self.right.x(), " X");
        append_if(out, self.right.y(), " Y");
    }

    fn append_dpad(&self, out: &mut String)
        ensures
            final(out)@ == self.text_dpad(old(out)@),
    {
        append_if(out, self.left.up(), " UP");
        append_if(out, self.left.down(), " DOWN");
        append_if(out, self.left.left(), " LEFT");
        append_if(out, self.left.right(), " RIGHT");
    }

    fn append_shoulders(&self, out: &mut String)
        ensures
            final(out)@ == self.text_shoulders(old(out)@),
    {
        append_if(out, self.left.l(), " L");
        append_if(out, self.left.zl(), " ZL");
        append_if(out, self.right.r(), " R");
        append_if(out, self.right.zr(), " ZR");
    }

    fn append_sides(&self, out: &mut String)
        ensures
            final(out)@ == self.text_sides(old(out)@),
    {
        append_if(out, self.left.sl() || self.right.sl(), " SR");
        append_if(out, self.left.sr() || self.right.sr(), " SR");
    }

    fn append_middle(&self, out: &mut String)
        ensures
            final(out)@ == self.text_middle(old(out)@),
    {
        append_if(out, self.middle.lstick(), " L3");
        append_if(out, self.middle.rstick(), " R3");
        append_if(out, self.middle.minus(), " -");
        append_if(out, self.middle.plus(), " +");
        append_if(out, self.middle.capture(), " CAPTURE");
        append_if(out, self.middle.home(), " HOME");
    }


    /// The pressed buttons, each preceded by a space (both side buttons are
    /// shown as SR).
    pub fn to_string(&self) -> (r: String)
        ensures
            r@ == self.text(),
    {
        let mut out = String::new();
        self.append_face(&mut out);
        self.append_dpad(&mut out);
        self.append_shoulders(&mut out);
        self.append_sides(&mut out);
        self.append_middle(&mut out);
        out
    }
}

/// The size of the buffer an input report is read into.
pub const INPUT_REPORT_SIZE: usize = 362;

/// A HID report from the controller, as read: the report id, then the
/// content that it selects.
///
/// Layout: standard reports hold the timer at 1, the device status at 2, the
/// buttons at 3, the sticks at 6 and 9 and the vibrator byte at 12; then
/// either a subcommand reply from 13 (acknowledge, id, data from 15) or three
/// IMU frames from 13, then an MCU report from 49.
#[derive(Copy, Clone, Debug)]
pub struct InputReport {
    pub raw: [u8; 362],
}

/// Whether the id names a standard report.
pub open spec fn is_standard_id(id: Option<InputReportId>) -> bool {
    id == Some(InputReportId::StandardAndSubcmd) || id == Some(InputReportId::StandardFull) || id
        == Some(InputReportId::StandardFullMCU)
}

impl Default for InputReport {
    /// An empty normal report.
    fn default() -> (r: Self)
        ensures
            r.raw[0] == 0x3f,
            forall|i: int| 1 <= i < 362 ==> r.raw[i] == 0,
    {
        InputReport::new()
    }
}

impl InputReport {
    pub open spec fn spec_id(self) -> Option<InputReportId> {
        InputReportId::spec_from_u8(self.raw[0])
    }

    /// The wire length of a report with this id.
    pub open spec fn spec_len(self) -> usize {
        match self.spec_id() {
            Some(InputReportId::Normal) => 12,
            Some(InputReportId::StandardAndSubcmd) => 49,
            Some(InputReportId::StandardFull) => 49,
            Some(InputReportId::StandardFullMCU) => 362,
            _ => 362,
        }
    }

    /// An empty normal report, to read into.
    pub fn new() -> (r: InputReport)
        ensures
            r.raw[0] == 0x3f,
            forall|i: int| 1 <= i < 362 ==> r.raw[i] == 0,
    {
        let mut raw = [0u8; 362];
        raw[0] = 0x3f;
        InputReport { raw }
    }

    /// The report read in `raw`.
    pub fn from_bytes(raw: [u8; 362]) -> (r: InputReport)
        ensures
            r.raw == raw,
    {
        InputReport { raw }
    }

    pub fn id(&self) -> (r: RawId<InputReportId>)
        ensures
            r.0 == self.raw[0],
    {
        RawId::from_raw(self.raw[0])
    }

    /// Whether the report id is known, and so is the id of a subcommand
    /// reply it holds.
    pub open spec fn is_valid(self) -> bool {
        self.spec_id() is Some && (self.spec_id() == Some(InputReportId::StandardAndSubcmd)
            ==> SubcommandId::spec_from_u8(self.raw[14]) is Some)
    }

    /// Whether [`InputReport::is_valid`] holds.
    pub fn check_valid(&self) -> (r: bool)
        ensures
            r == self.is_valid(),
    {
        match self.id().try_into() {
            Some(_) => match self.subcmd_reply() {
                Some(rep) => rep.id().is_some(),
                None => true,
            },
            None => false,
        }
    }

    /// Checks the report: its id and that of a subcommand reply it holds
    /// must be known.
    pub fn validate(&self)
        requires
            self.is_valid(),
    {
        match self.subcmd_reply() {
            Some(rep) => rep.validate(),
            None => {},
        }
    }

    /// The length of the report on the wire.
    pub fn len(&self) -> (r: usize)
        requires
            self.spec_id() != Some(InputReportId::MCUFwUpdate),
        ensures
            r == self.spec_len(),
    {
        match self.id().try_into() {
            Some(InputReportId::Normal) => 12,
            Some(InputReportId::StandardAndSubcmd) | Some(InputReportId::StandardFull) => 49,
            Some(InputReportId::StandardFullMCU) => 362,
            _ => 362,
        }
    }

    /// The bytes of the report on the wire.
    pub fn as_bytes(&self) -> (r: &[u8])
        requires
            self.spec_id() != Some(InputReportId::MCUFwUpdate),
        ensures
            r@ == self.raw@.subrange(0, self.spec_len() as int),
    {
        let len = self.len();
        let (a, _) = self.raw.as_slice().split_at(len);
        a
    }

    /// Whether the report holds more than buttons, sticks and IMU frames.
    pub fn is_special(&self) -> (r: bool)
        ensures
            r == (self.spec_id() != Some(InputReportId::Normal) && self.spec_id() != Some(
                InputReportId::StandardFull,
            ) && !(self.spec_id() == Some(InputReportId::StandardFullMCU)
                && MCUReportId::spec_from_u8(self.raw[49]) == Some(MCUReportId::IRData))),
    {
        let id = self.id();
        !id.is(InputReportId::Normal) && !id.is(InputReportId::StandardFull) && match self.mcu_report() {
            Some(m) => !m.id.is(MCUReportId::IRData),
            None => true,
        }
    }

    pub fn normal(&self) -> (r: Option<NormalInputReport>)
        ensures
            r is Some <==> self.spec_id() == Some(InputReportId::Normal),
            r matches Some(n) ==> n.buttons == [self.raw[1], self.raw[2]] && n.stick == self.raw[3]
                && n._filler@ == self.raw@.subrange(4, 12),
    {
        if self.id().is(InputReportId::Normal) {
            Some(
                NormalInputReport {
                    buttons: [self.raw[1], self.raw[2]],
                    stick: self.raw[3],
                    _filler: sub_array(&self.raw, 4),
                },
            )
        } else {
            None
        }
    }

    pub fn standard(&self) -> (r: Option<StandardInputReport>)
        ensures
            r == (if is_standard_id(self.spec_id()) {
                Some(StandardInputReport::parse(self.raw@))
            } else {
                None
            }),
    {
        let id = self.id();
        if id.is(InputReportId::StandardAndSubcmd) || id.is(InputReportId::StandardFull) || id.is(
            InputReportId::StandardFullMCU,
        ) {
            Some(
                StandardInputReport {
                    timer: self.raw[1],
                    info: DeviceStatus(self.raw[2]),
                    buttons: ButtonsStatus {
                        right: RightButtons(self.raw[3]),
                        middle: MiddleButtons(self.raw[4]),
                        left: LeftButtons(self.raw[5]),
                    },
                    left_stick: Stick { data: [self.raw[6], self.raw[7], self.raw[8]] },
                    right_stick: Stick { data: [self.raw[9], self.raw[10], self.raw[11]] },
                    vibrator: self.raw[12],
                },
            )
        } else {
            None
        }
    }

    pub fn subcmd_reply(&self) -> (r: Option<SubcommandReply>)
        ensures
            r is Some <==> self.spec_id() == Some(InputReportId::StandardAndSubcmd),
            r matches Some(rep) ==> rep.ack.0 == self.raw[13] && rep.id.0 == self.raw[14] && rep.u@
                == self.raw@.subrange(15, 362),
    {
        if self.id().is(InputReportId::StandardAndSubcmd) {
            Some(
                SubcommandReply {
                    ack: Ack(self.raw[13]),
                    id: RawId::from_raw(self.raw[14]),
                    u: sub_array(&self.raw, 15),
                },
            )
        } else {
            None
        }
    }

    pub fn imu_frames(&self) -> (r: Option<[Frame; 3]>)
        ensures
            r is Some <==> (self.spec_id() == Some(InputReportId::StandardFull) || self.spec_id() == Some(
                InputReportId::StandardFullMCU,
            )),
            r matches Some(f) ==> f[0] == Frame::parse(self.raw@.subrange(13, 25)) && f[1] == Frame::parse(
                self.raw@.subrange(25, 37),
            ) && f[2] == Frame::parse(self.raw@.subrange(37, 49)),
    {
        let id = self.id();
        if id.is(InputReportId::StandardFull) || id.is(InputReportId::StandardFullMCU) {
            Some(
                [
                    Frame::from_bytes(&self.raw, 13),
                    Frame::from_bytes(&self.raw, 25),
                    Frame::from_bytes(&self.raw, 37),
                ],
            )
        } else {
            None
        }
    }

    pub fn mcu_report(&self) -> (r: Option<MCUReport>)
        ensures
            r is Some <==> self.spec_id() == Some(InputReportId::StandardFullMCU),
            r matches Some(m) ==> m.id.0 == self.raw[49] && m.u@ == self.raw@.subrange(50, 362),
    {
        if self.id().is(InputReportId::StandardFullMCU) {
            Some(MCUReport { id: RawId::from_raw(self.raw[49]), u: sub_array(&self.raw, 50) })
        } else {
            None
        }
    }
}

/// The content of a normal report.
#[derive(Copy, Clone, Debug)]
pub struct NormalInputReport {
    pub buttons: [u8; 2],
    pub stick: u8,
    pub _filler: [u8; 8],
}

/// The content common to standard reports.
#[derive(Copy, Clone, Debug)]
pub struct StandardInputReport {
    pub timer: u8,
    pub info: DeviceStatus,
    pub buttons: ButtonsStatus,
    pub left_stick: Stick,
    pub right_stick: Stick,
    pub vibrator: u8,
}

impl StandardInputReport {
    /// The content in bytes 1 to 12 of a report.
    pub open spec fn parse(s: Seq<u8>) -> StandardInputReport {
        StandardInputReport {
            timer: s[1],
            info: DeviceStatus(s[2]),
            buttons: ButtonsStatus {
                right: RightButtons(s[3]),
                middle: MiddleButtons(s[4]),
                left: LeftButtons(s[5]),
            },
            left_stick: Stick { data: [s[6], s[7], s[8]] },
            right_stick: Stick { data: [s[9], s[10], s[11]] },
            vibrator: s[12],
        }
    }
}

/// The device status: connection (bit 0), kind of device (bits 1 and 2),
/// charging (bit 4) and battery level (bits 5 to 7).
#[derive(Copy, Clone, Debug)]
pub struct DeviceStatus(pub u8);

impl DeviceStatus {
    pub fn connected(&self) -> (r: bool)
        ensures
            r == (self.0 % 2 == 1),
    {
        self.0 % 2 == 1
    }

    pub open spec fn device_type_bits(self) -> u8 {
        (self.0 / 2) % 4
    }

    pub open spec fn battery_level_bits(self) -> u8 {
        self.0 / 32
    }

    pub fn device_type(&self) -> (r: DeviceType)
        requires
            DeviceType::spec_from_u8(self.device_type_bits()) is Some,
        ensures
            Some(r) == DeviceType::spec_from_u8(self.device_type_bits()),
    {
        DeviceType::from_u8((self.0 / 2) % 4).unwrap()
    }

    pub fn charging(&self) -> (r: bool)
        ensures
            r == ((self.0 / 16) % 2 == 1),
    {
        (self.0 / 16) % 2 == 1
    }

    pub fn battery_level(&self) -> (r: BatteryLevel)
        requires
            BatteryLevel::spec_from_u8(self.battery_level_bits()) is Some,
        ensures
            Some(r) == BatteryLevel::spec_from_u8(self.battery_level_bits()),
    {
        BatteryLevel::from_u8(self.0 / 32).unwrap()
    }
}

impl BatteryLevel {
    /// The rank of the level, from 0 (empty) to 4 (full).
    pub fn level(&self) -> (r: u8)
        ensures
            r == self.spec_to_u8(),
            r <= 4,
    {
        self.to_u8()
    }
}

/// The buttons of the controllers.
#[derive(Copy, Clone, Debug, PartialEq, Eq, Structural)]
pub enum Button {
    N,
    S,
    E,
    W,
    L,
    R,
    ZL,
    ZR,
    L3,
    R3,
    UP,
    DOWN,
    LEFT,
    RIGHT,
}

/// The position of a stick: two 12-bit values packed in three bytes.
#[derive(Copy, Clone, Debug)]
pub struct Stick {
    pub data: [u8; 3],
}

impl Stick {
    pub open spec fn spec_x(self) -> u16 {
        (self.data[0] as int + (self.data[1] % 16) as int * 256) as u16
    }

    pub open spec fn spec_y(self) -> u16 {
        (self.data[1] as int / 16 + self.data[2] as int * 16) as u16
    }

    /// The horizontal position: the low 12 bits.
    pub fn x(self) -> (r: u16)
        ensures
            r == self.spec_x(),
    {
        self.data[0] as u16 + (self.data[1] % 16) as u16 * 256
    }

    /// The vertical position: the high 12 bits.
    pub fn y(self) -> (r: u16)
        ensures
            r == self.spec_y(),
    {
        (self.data[1] / 16) as u16 + self.data[2] as u16 * 16
    }
}

/// Both coordinates of a stick fit in 12 bits.
pub proof fn law_stick_12_bits(s: Stick)
    ensures
        s.spec_x() <= 0xFFF,
        s.spec_y() <= 0xFFF,
{
}

/// A reply to a subcommand: the acknowledge byte, the subcommand id, then the
/// data, whose meaning depends on the id.
#[derive(Copy, Clone, Debug)]
pub struct SubcommandReply {
    pub ack: Ack,
    pub id: RawId<SubcommandId>,
    pub u: [u8; 347],
}

impl SubcommandReply {
    /// Checks the reply: its subcommand id must be known.
    pub fn validate(&self)
        requires
            self.id.spec_try_into() is Some,
    {
    }

    pub fn id(&self) -> (r: Option<SubcommandId>)
        ensures
            r == self.id.spec_try_into(),
    {
        self.id.try_into()
    }

    pub fn ack(&self) -> (r: Ack)
        ensures
            r == self.ack,
    {
        self.ack
    }

    /// The information on the device, for a reply to `RequestDeviceInfo`.
    pub fn device_info(&self) -> (r: Option<DeviceInfo>)
        ensures
            r == (if self.id.spec_try_into() == Some(SubcommandId::RequestDeviceInfo) {
                Some(DeviceInfo::parse(self.u@))
            } else {
                None
            }),
    {
        if self.id.is(SubcommandId::RequestDeviceInfo) {
            let u = &self.u;
            Some(
                DeviceInfo {
                    firmware_version: FirmwareVersion([u[0], u[1]]),
                    which_controller: RawId::from_raw(u[2]),
                    _something: u[3],
                    mac_address: MACAddress([u[4], u[5], u[6], u[7], u[8], u[9]]),
                    _somethingelse: u[10],
                    use_spi_colors: RawId::from_raw(u[11]),
                },
            )
        } else {
            None
        }
    }

    /// The result of a read, for a reply to `SPIRead`.
    pub fn spi_read_result(&self) -> (r: Option<SPIReadResult>)
        ensures
            r is Some <==> self.id.spec_try_into() == Some(SubcommandId::SPIRead),
            r matches Some(res) ==> res.address@ == self.u@.subrange(0, 4) && res.size == self.u[4]
                && res.data@ == self.u@.subrange(5, 34),
    {
        if self.id.is(SubcommandId::SPIRead) {
            Some(
                SPIReadResult {
                    address: [self.u[0], self.u[1], self.u[2], self.u[3]],
                    size: self.u[4],
                    data: sub_array(&self.u, 5),
                },
            )
        } else {
            None
        }
    }

    /// For a reply to `SPIWrite`, whether it was acknowledged and the write
    /// succeeded.
    pub fn is_spi_write_success(&self) -> (r: Option<bool>)
        ensures
            r == (if self.id.spec_try_into() == Some(SubcommandId::SPIWrite) {
                Some(self.ack.0 >= 0x80 && self.u[0] == 0)
            } else {
                None
            }),
    {
        if self.id.is(SubcommandId::SPIWrite) {
            Some(self.ack.is_ok() && self.u[0] == 0)
        } else {
            None
        }
    }

    /// The MCU report, for a reply to `SetMCUConf`.
    pub fn mcu_report(&self) -> (r: Option<MCUReport>)
        ensures
            r is Some <==> self.id.spec_try_into() == Some(SubcommandId::SetMCUConf),
            r matches Some(m) ==> m.id.0 == self.u[0] && m.u@ == self.u@.subrange(1, 313),
    {
        if self.id.is(SubcommandId::SetMCUConf) {
            Some(MCUReport { id: RawId::from_raw(self.u[0]), u: sub_array(&self.u, 1) })
        } else {
            None
        }
    }

    /// The reply of an accessory, for a reply to `MaybeAccessory`.
    pub fn maybe_accessory(&self) -> (r: Option<AccessoryResponse>)
        ensures
            r is Some <==> self.id.spec_try_into() == Some(SubcommandId::MaybeAccessory),
            r matches Some(a) ==> a.error == self.u[0] && a.len == self.u[1] && a.unknown_0x00@
                == self.u@.subrange(2, 6) && a.u@ == self.u@.subrange(6, 26),
    {
        if self.id.is(SubcommandId::MaybeAccessory) {
            Some(
                AccessoryResponse {
                    error: self.u[0],
                    len: self.u[1],
                    unknown_0x00: [self.u[2], self.u[3], self.u[4], self.u[5]],
                    u: sub_array(&self.u, 6),
                },
            )
        } else {
            None
        }
    }
}

/// The acknowledge byte of a subcommand reply: bit 7 set for an ACK.
#[derive(Copy, Clone, Debug)]
pub struct Ack(pub u8);

impl Ack {
    pub fn is_ok(self) -> (r: bool)
        ensures
            r == (self.0 >= 0x80),
    {
        self.0 >= 0x80
    }
}

/// Information on the device.
#[derive(Copy, Clone, Debug)]
pub struct DeviceInfo {
    pub firmware_version: FirmwareVersion,
    /// 1=Left Joy-Con, 2=Right Joy-Con, 3=Pro Controller
    pub which_controller: RawId<WhichController>,
    /// Unknown. Seems to be always 02
    pub _something: u8,
    /// Big endian
    pub mac_address: MACAddress,
    /// Unknown. Seems to be always 01
    pub _somethingelse: u8,
    pub use_spi_colors: RawId<UseSPIColors>,
}

impl DeviceInfo {
    /// The information in the first twelve bytes of `u`.
    pub open spec fn parse(u: Seq<u8>) -> DeviceInfo {
        DeviceInfo {
            firmware_version: FirmwareVersion([u[0], u[1]]),
            which_controller: RawId(u[2], PhantomData),
            _something: u[3],
            mac_address: MACAddress([u[4], u[5], u[6], u[7], u[8], u[9]]),
            _somethingelse: u[10],
            use_spi_colors: RawId(u[11], PhantomData),
        }
    }
}

/// A firmware version: major, then minor.
#[derive(Copy, Clone, Debug)]
pub struct FirmwareVersion(pub [u8; 2]);

/// A MAC address, most significant byte first.
#[derive(Copy, Clone, Debug)]
pub struct MACAddress(pub [u8; 6]);

impl WhichController {
    /// The controller with a HID product id; `None` for the charging grip
    /// and any other id.
    /// The controller with this HID product id, if it is one.
    pub open spec fn of_product_id(product_id: u16) -> Option<WhichController> {
        if product_id == JOYCON_L_BT {
            Some(WhichController::LeftJoyCon)
        } else if product_id == JOYCON_R_BT {
            Some(WhichController::RightJoyCon)
        } else if product_id == PRO_CONTROLLER {
            Some(WhichController::ProController)
        } else {
            None
        }
    }

    pub fn from_product_id(product_id: u16) -> (r: Option<WhichController>)
        ensures
            r == WhichController::of_product_id(product_id),
            r == (if product_id == JOYCON_L_BT {
                Some(WhichController::LeftJoyCon)
            } else if product_id == JOYCON_R_BT {
                Some(WhichController::RightJoyCon)
            } else if product_id == PRO_CONTROLLER {
                Some(WhichController::ProController)
            } else {
                None
            }),
    {
        if product_id == JOYCON_L_BT {
            Some(WhichController::LeftJoyCon)
        } else if product_id == JOYCON_R_BT {
            Some(WhichController::RightJoyCon)
        } else if product_id == PRO_CONTROLLER {
            Some(WhichController::ProController)
        } else {
            None
        }
    }

    /// The name of the controller.
    pub fn name(&self) -> (r: &'static str)
        ensures
            *self == WhichController::LeftJoyCon ==> r@ == "JoyCon (L)"@,
            *self == WhichController::RightJoyCon ==> r@ == "JoyCon (R)"@,
            *self == WhichController::ProController ==> r@ == "Pro Controller"@,
    {
        match *self {
            WhichController::LeftJoyCon => "JoyCon (L)",
            WhichController::RightJoyCon => "JoyCon (R)",
            WhichController::ProController => "Pro Controller",
        }
    }
}

/// Three IMU frames followed by an MCU report.
#[derive(Copy, Clone, Debug)]
pub struct IMUMCU {
    pub imu_frames: [Frame; 3],
    pub mcu_report: MCUReport,
}

/// The buttons of the right side: Y, X, B, A, SR, SL, R, ZR from bit 0.
#[derive(Copy, Clone, Debug, Default)]
pub struct RightButtons(pub u8);

impl RightButtons {
    pub fn y(&self) -> (r: bool)
        ensures
            r == (self.0 % 2 == 1),
    {
        self.0 % 2 == 1
    }

    pub fn x(&self) -> (r: bool)
        ensures
            r == ((self.0 / 2) % 2 == 1),
    {
        (self.0 / 2) % 2 == 1
    }

    pub fn b(&self) -> (r: bool)
        ensures
            r == ((self.0 / 4) % 2 == 1),
    {
        (self.0 / 4) % 2 == 1
    }

    pub fn a(&self) -> (r: bool)
        ensures
            r == ((self.0 / 8) % 2 == 1),
    {
        (self.0 / 8) % 2 == 1
    }

    pub fn sr(&self) -> (r: bool)
        ensures
            r == ((self.0 / 16) % 2 == 1),
    {
        (self.0 / 16) % 2 == 1
    }

    pub fn sl(&self) -> (r: bool)
        ensures
            r == ((self.0 / 32) % 2 == 1),
    {
        (self.0 / 32) % 2 == 1
    }

    pub fn r(&self) -> (r: bool)
        ensures
            r == ((self.0 / 64) % 2 == 1),
    {
        (self.0 / 64) % 2 == 1
    }

    pub fn zr(&self) -> (r: bool)
        ensures
            r == ((self.0 / 128) % 2 == 1),
    {
        (self.0 / 128) % 2 == 1
    }
}

/// The middle buttons: -, +, stick clicks, HOME, capture, then the grip state.
#[derive(Copy, Clone, Debug, Default)]
pub struct MiddleButtons(pub u8);

impl MiddleButtons {
    pub fn minus(&self) -> (r: bool)
        ensures
            r == (self.0 % 2 == 1),
    {
        self.0 % 2 == 1
    }

    pub fn plus(&self) -> (r: bool)
        ensures
            r == ((self.0 / 2) % 2 == 1),
    {
        (self.0 / 2) % 2 == 1
    }

    pub fn rstick(&self) -> (r: bool)
        ensures
            r == ((self.0 / 4) % 2 == 1),
    {
        (self.0 / 4) % 2 == 1
    }

    pub fn lstick(&self) -> (r: bool)
        ensures
            r == ((self.0 / 8) % 2 == 1),
    {
        (self.0 / 8) % 2 == 1
    }

    pub fn home(&self) -> (r: bool)
        ensures
            r == ((self.0 / 16) % 2 == 1),
    {
        (self.0 / 16) % 2 == 1
    }

    pub fn capture(&self) -> (r: bool)
        ensures
            r == ((self.0 / 32) % 2 == 1),
    {
        (self.0 / 32) % 2 == 1
    }

    pub fn _unused(&self) -> (r: bool)
        ensures
            r == ((self.0 / 64) % 2 == 1),
    {
        (self.0 / 64) % 2 == 1
    }

    pub fn charging_grip(&self) -> (r: bool)
        ensures
            r == ((self.0 / 128) % 2 == 1),
    {
        (self.0 / 128) % 2 == 1
    }
}

/// The buttons of the left side: directions, SR, SL, L, ZL from bit 0.
#[derive(Copy, Clone, Debug, Default)]
pub struct LeftButtons(pub u8);

impl LeftButtons {
    pub fn down(&self) -> (r: bool)
        ensures
            r == (self.0 % 2 == 1),
    {
        self.0 % 2 == 1
    }

    pub fn up(&self) -> (r: bool)
        ensures
            r == ((self.0 / 2) % 2 == 1),
    {
        (self.0 / 2) % 2 == 1
    }

    pub fn right(&self) -> (r: bool)
        ensures
            r == ((self.0 / 4) % 2 == 1),
    {
        (self.0 / 4) % 2 == 1
    }

    pub fn left(&self) -> (r: bool)
        ensures
            r == ((self.0 / 8) % 2 == 1),
    {
        (self.0 / 8) % 2 == 1
    }

    pub fn sr(&self) -> (r: bool)
        ensures
            r == ((self.0 / 16) % 2 == 1),
    {
        (self.0 / 16) % 2 == 1
    }

    pub fn sl(&self) -> (r: bool)
        ensures
            r == ((self.0 / 32) % 2 == 1),
    {
        (self.0 / 32) % 2 == 1
    }

    pub fn l(&self) -> (r: bool)
        ensures
            r == ((self.0 / 64) % 2 == 1),
    {
        (self.0 / 64) % 2 == 1
    }

    pub fn zl(&self) -> (r: bool)
        ensures
            r == ((self.0 / 128) % 2 == 1),
    {
        (self.0 / 128) % 2 == 1
    }
}


/// Kind of controller, in the device status.
#[derive(Copy, Clone, Debug, PartialEq, Eq, Structural)]
pub enum DeviceType {
    ProController,
    Joycon,
}

impl IdEnum for DeviceType {
    open spec fn spec_from_u8(b: u8) -> Option<Self> {
        if b == 0 {
            Some(DeviceType::ProController)
        } else if b == 3 {
            Some(DeviceType::Joycon)
        } else {
            None
        }
    }

    open spec fn spec_to_u8(self) -> u8 {
        match self {
            DeviceType::ProController => 0,
            DeviceType::Joycon => 3,
        }
    }

    fn from_u8(b: u8) -> (r: Option<Self>) {
        match b {
            0 => Some(DeviceType::ProController),
            3 => Some(DeviceType::Joycon),
            _ => None,
        }
    }

    fn to_u8(self) -> (r: u8) {
        match self {
            DeviceType::ProController => 0,
            DeviceType::Joycon => 3,
        }
    }

    proof fn lemma_to_from(self) {
    }

    proof fn lemma_from_to(b: u8) {
    }
}

/// Charge of the battery, in the device status.
#[derive(Copy, Clone, Debug, PartialEq, Eq, Structural)]
pub enum BatteryLevel {
    Empty,
    Critical,
    Low,
    Medium,
    Full,
}

impl IdEnum for BatteryLevel {
    open spec fn spec_from_u8(b: u8) -> Option<Self> {
        if b == 0 {
            Some(BatteryLevel::Empty)
        } else if b == 1 {
            Some(BatteryLevel::Critical)
        } else if b == 2 {
            Some(BatteryLevel::Low)
        } else if b == 3 {
            Some(BatteryLevel::Medium)
        } else if b == 4 {
            Some(BatteryLevel::Full)
        } else {
            None
        }
    }

    open spec fn spec_to_u8(self) -> u8 {
        match self {
            BatteryLevel::Empty => 0,
            BatteryLevel::Critical => 1,
            BatteryLevel::Low => 2,
            BatteryLevel::Medium => 3,
            BatteryLevel::Full => 4,
        }
    }

    fn from_u8(b: u8) -> (r: Option<Self>) {
        match b {
            0 => Some(BatteryLevel::Empty),
            1 => Some(BatteryLevel::Critical),
            2 => Some(BatteryLevel::Low),
            3 => Some(BatteryLevel::Medium),
            4 => Some(BatteryLevel::Full),
            _ => None,
        }
    }

    fn to_u8(self) -> (r: u8) {
        match self {
            BatteryLevel::Empty => 0,
            BatteryLevel::Critical => 1,
            BatteryLevel::Low => 2,
            BatteryLevel::Medium => 3,
            BatteryLevel::Full => 4,
        }
    }

    proof fn lemma_to_from(self) {
    }

    proof fn lemma_from_to(b: u8) {
    }
}

/// Which controller answers.
#[derive(Copy, Clone, Debug, PartialEq, Eq, Structural)]
pub enum WhichController {
    LeftJoyCon,
    RightJoyCon,
    ProController,
}

impl IdEnum for WhichController {
    open spec fn spec_from_u8(b: u8) -> Option<Self> {
        if b == 1 {
            Some(WhichController::LeftJoyCon)
        } else if b == 2 {
            Some(WhichController::RightJoyCon)
        } else if b == 3 {
            Some(WhichController::ProController)
        } else {
            None
        }
    }

    open spec fn spec_to_u8(self) -> u8 {
        match self {
            WhichController::LeftJoyCon => 1,
            WhichController::RightJoyCon => 2,
            WhichController::ProController => 3,
        }
    }

    fn from_u8(b: u8) -> (r: Option<Self>) {
        match b {
            1 => Some(WhichController::LeftJoyCon),
            2 => Some(WhichController::RightJoyCon),
            3 => Some(WhichController::ProController),
            _ => None,
        }
    }

    fn to_u8(self) -> (r: u8) {
        match self {
            WhichController::LeftJoyCon => 1,
            WhichController::RightJoyCon => 2,
            WhichController::ProController => 3,
        }
    }

    proof fn lemma_to_from(self) {
    }

    proof fn lemma_from_to(b: u8) {
    }
}

/// Whether the colors stored in the SPI flash are used.
#[derive(Copy, Clone, Debug, PartialEq, Eq, Structural)]
pub enum UseSPIColors {
    No,
    WithoutGrip,
    IncludingGrip,
}

impl IdEnum for UseSPIColors {
    open spec fn spec_from_u8(b: u8) -> Option<Self> {
        if b == 0 {
            Some(UseSPIColors::No)
        } else if b == 1 {
            Some(UseSPIColors::WithoutGrip)
        } else if b == 2 {
            Some(UseSPIColors::IncludingGrip)
        } else {
            None
        }
    }

    open spec fn spec_to_u8(self) -> u8 {
        match self {
            UseSPIColors::No => 0,
            UseSPIColors::WithoutGrip => 1,
            UseSPIColors::IncludingGrip => 2,
        }
    }

    fn from_u8(b: u8) -> (r: Option<Self>) {
        match b {
            0 => Some(UseSPIColors::No),
            1 => Some(UseSPIColors::WithoutGrip),
            2 => Some(UseSPIColors::IncludingGrip),
            _ => None,
        }
    }

    fn to_u8(self) -> (r: u8) {
        match self {
            UseSPIColors::No => 0,
            UseSPIColors::WithoutGrip => 1,
            UseSPIColors::IncludingGrip => 2,
        }
    }

    proof fn lemma_to_from(self) {
    }

    proof fn lemma_from_to(b: u8) {
    }
}


} // verus!
