//! The input reports of the DualShock 4, over Bluetooth and over USB.
//!
//! A report read is its id, then the bytes of one of three layouts: the
//! simple Bluetooth report, the full Bluetooth report or the USB report.
pub use crate::common::{I16LE, RawId};
use crate::common::IdEnum;
use crate::gamepad::{status, JoyKey, KeyMap, KeyStatus};
use vstd::prelude::*;

verus! {

pub const HID_VENDOR_ID: u16 = 0x54c;

pub const HID_PRODUCT_ID_NEW: u16 = 0x9cc;

pub const HID_PRODUCT_ID_OLD: u16 = 0x5c4;

/// Reports per second.
pub const DS4_REPORT_RATE: u32 = 250;

/// The size of a read buffer: the id, the largest layout and one more byte,
/// so that a longer read shows.
pub const DS4_REPORT_SIZE: usize = 79;

/// How the controller is connected.
#[derive(Debug, Copy, Clone, PartialEq, Eq, Structural)]
pub enum ConnectionType {
    Bluetooth,
    USB,
}

/// Identifier of an input report, its first byte.
#[derive(Debug, Copy, Clone, PartialEq, Eq, Structural)]
pub enum InputReportId {
    Simple,
    Full,
}

impl IdEnum for InputReportId {
    open spec fn spec_from_u8(b: u8) -> Option<Self> {
        if b == 0x01 {
            Some(InputReportId::Simple)
        } else if b == 0x11 {
            Some(InputReportId::Full)
        } else {
            None
        }
    }

    open spec fn spec_to_u8(self) -> u8 {
        match self {
            InputReportId::Simple => 0x01,
            InputReportId::Full => 0x11,
        }
    }

    fn from_u8(b: u8) -> (r: Option<Self>) {
        match b {
            0x01 => Some(InputReportId::Simple),
            0x11 => Some(InputReportId::Full),
            _ => None,
        }
    }

    fn to_u8(self) -> (r: u8) {
        match self {
            InputReportId::Simple => 0x01,
            InputReportId::Full => 0x11,
        }
    }

    proof fn lemma_to_from(self) {
    }

    proof fn lemma_from_to(b: u8) {
    }
}

/// The direction pad, as a direction from 0 (up) clockwise to 7 (up left);
/// 8 is none.
#[derive(Debug, Clone, Copy, PartialEq, Eq, Structural)]
pub struct Dpad(pub u8);

impl Dpad {
    pub fn up(&self) -> (r: bool)
        ensures
            r == (self.0 <= 1 || self.0 == 7),
    {
        self.0 <= 1 || self.0 == 7
    }

    pub fn right(&self) -> (r: bool)
        ensures
            r == (1 <= self.0 && self.0 <= 3),
    {
        1 <= self.0 && self.0 <= 3
    }

    pub fn down(&self) -> (r: bool)
        ensures
            r == (3 <= self.0 && self.0 <= 5),
    {
        3 <= self.0 && self.0 <= 5
    }

    pub fn left(&self) -> (r: bool)
        ensures
            r == (5 <= self.0 && self.0 <= 7),
    {
        5 <= self.0 && self.0 <= 7
    }
}

impl From<u8> for Dpad {
    fn from(u: u8) -> (r: Self) {
        Dpad(u)
    }
}

impl vstd::std_specs::convert::FromSpecImpl<u8> for Dpad {
    open spec fn obeys_from_spec() -> bool {
        true
    }

    open spec fn from_spec(u: u8) -> Dpad {
        Dpad(u)
    }
}

/// The direction pad never points both up and down, nor both left and
/// right; each direction of the pad covers itself and its two diagonals.
pub proof fn law_dpad_directions(d: u8)
    ensures
        !((d <= 1 || d == 7) && 3 <= d <= 5),
        !((1 <= d <= 3) && 5 <= d <= 7),
        d == 1 ==> (d <= 1 || d == 7) && 1 <= d <= 3,
        d >= 8 ==> !(d <= 1 || d == 7) && !(1 <= d <= 3) && !(3 <= d <= 5) && !(5 <= d <= 7),
{
}

/// Bit `n` of the buttons, byte 0 first, least significant bit first.
pub open spec fn button_bit(b: [u8; 3], n: int) -> bool {
    (b[n / 8] as int / vstd::arithmetic::power2::pow2((n % 8) as nat) as int) % 2 == 1
}

/// The buttons: the pad direction in bits 0 to 2, then one bit per button,
/// then a counter in bits 18 to 23.
#[derive(Debug, Clone, Copy)]
pub struct Buttons(pub [u8; 3]);

impl Buttons {
    pub fn dpad(&self) -> (r: Dpad)
        ensures
            r == Dpad(self.0[0] % 8),
    {
        Dpad(self.0[0] % 8)
    }

    pub fn dpad_pressed(&self) -> (r: bool)
        ensures
            r == ((self.0[0] / 8) % 2 == 1),
    {
        (self.0[0] / 8) % 2 == 1
    }

    pub fn square(&self) -> (r: bool)
        ensures
            r == ((self.0[0] / 16) % 2 == 1),
    {
        (self.0[0] / 16) % 2 == 1
    }

    pub fn cross(&self) -> (r: bool)
        ensures
            r == ((self.0[0] / 32) % 2 == 1),
    {
        (self.0[0] / 32) % 2 == 1
    }

    pub fn circle(&self) -> (r: bool)
        ensures
            r == ((self.0[0] / 64) % 2 == 1),
    {
        (self.0[0] / 64) % 2 == 1
    }

    pub fn triangle(&self) -> (r: bool)
        ensures
            r == ((self.0[0] / 128) % 2 == 1),
    {
        (self.0[0] / 128) % 2 == 1
    }

    pub fn l1(&self) -> (r: bool)
        ensures
            r == (self.0[1] % 2 == 1),
    {
        self.0[1] % 2 == 1
    }

    pub fn r1(&self) -> (r: bool)
        ensures
            r == ((self.0[1] / 2) % 2 == 1),
    {
        (self.0[1] / 2) % 2 == 1
    }

    pub fn l2(&self) -> (r: bool)
        ensures
            r == ((self.0[1] / 4) % 2 == 1),
    {
        (self.0[1] / 4) % 2 == 1
    }

    pub fn r2(&self) -> (r: bool)
        ensures
            r == ((self.0[1] / 8) % 2 == 1),
    {
        (self.0[1] / 8) % 2 == 1
    }

    pub fn share(&self) -> (r: bool)
        ensures
            r == ((self.0[1] / 16) % 2 == 1),
    {
        (self.0[1] / 16) % 2 == 1
    }

    pub fn options(&self) -> (r: bool)
        ensures
            r == ((self.0[1] / 32) % 2 == 1),
    {
        (self.0[1] / 32) % 2 == 1
    }

    pub fn l3(&self) -> (r: bool)
        ensures
            r == ((self.0[1] / 64) % 2 == 1),
    {
        (self.0[1] / 64) % 2 == 1
    }

    pub fn r3(&self) -> (r: bool)
        ensures
            r == ((self.0[1] / 128) % 2 == 1),
    {
        (self.0[1] / 128) % 2 == 1
    }

    pub fn ps(&self) -> (r: bool)
        ensures
            r == (self.0[2] % 2 == 1),
    {
        self.0[2] % 2 == 1
    }

    pub fn tpad(&self) -> (r: bool)
        ensures
            r == ((self.0[2] / 2) % 2 == 1),
    {
        (self.0[2] / 2) % 2 == 1
    }

    pub fn counter(&self) -> (r: u8)
        ensures
            r == self.0[2] / 4,
    {
        self.0[2] / 4
    }
}

/// The battery level and what is plugged in.
#[derive(Debug, Clone, Copy, PartialEq, Eq, Structural)]
pub struct Type(pub u8);

impl Type {
    pub fn battery(&self) -> (r: u8)
        ensures
            r == self.0 % 16,
    {
        self.0 % 16
    }

    pub fn usb(&self) -> (r: bool)
        ensures
            r == ((self.0 / 16) % 2 == 1),
    {
        (self.0 / 16) % 2 == 1
    }

    pub fn mic(&self) -> (r: bool)
        ensures
            r == ((self.0 / 32) % 2 == 1),
    {
        (self.0 / 32) % 2 == 1
    }

    pub fn phone(&self) -> (r: bool)
        ensures
            r == ((self.0 / 64) % 2 == 1),
    {
        (self.0 / 64) % 2 == 1
    }
}

/// How far a trigger is pressed, from 0 to 255.
#[derive(Debug, Clone, Copy, PartialEq, Eq, Structural)]
pub struct Trigger(pub u8);

/// The position of a stick, each axis from 0 to 255; the vertical axis
/// grows downwards.
#[derive(Debug, Clone, Copy, PartialEq, Eq, Structural)]
pub struct Stick {
    pub x: u8,
    pub y: u8,
}

impl Stick {
    /// The position with the vertical axis growing upwards.
    pub fn val(&self) -> (r: (u8, u8))
        ensures
            r == (self.x, (255 - self.y) as u8),
    {
        (self.x, 255 - self.y)
    }
}

/// The angular speeds, in their raw units.
#[derive(Debug, Clone, Copy)]
pub struct Gyro {
    pub pitch: I16LE,
    pub yaw: I16LE,
    pub roll: I16LE,
}

/// The accelerations, in their raw units.
#[derive(Debug, Clone, Copy)]
pub struct Accel {
    pub y: I16LE,
    pub z: I16LE,
    pub x: I16LE,
}

/// The position of a finger on the touch pad, two 12-bit values packed in
/// three bytes.
#[derive(Debug, Clone, Copy, PartialEq, Eq, Structural)]
pub struct FingerCoord(pub u8, pub u8, pub u8);

impl FingerCoord {
    /// The horizontal and vertical positions.
    pub fn raw(&self) -> (r: (u16, u16))
        ensures
            r.0 == (self.1 % 16) * 256 + self.0,
            r.1 == self.2 * 16 + self.1 / 16,
    {
        let (a, b, c) = (self.0 as u16, self.1 as u16, self.2 as u16);
        ((b % 16) * 256 + a, c * 16 + b / 16)
    }
}

/// A finger on the touch pad: its id with the top bit set when it is not
/// touching, and its position.
#[derive(Debug, Clone, Copy, PartialEq, Eq, Structural)]
pub struct Finger {
    pub id: u8,
    pub coordinate: FingerCoord,
}

impl Finger {
    pub open spec fn spec_is_active(self) -> bool {
        self.id < 0x80
    }

    /// Whether the finger touches the pad.
    pub fn is_active(&self) -> (r: bool)
        ensures
            r == self.spec_is_active(),
    {
        self.id < 0x80
    }

    /// The id of the finger, without the top bit.
    pub fn id(&self) -> (r: u8)
        ensures
            r == self.id % 0x80,
            r < 0x80,
    {
        self.id % 0x80
    }
}

/// A sample of the touch pad: two fingers.
#[derive(Debug, Clone, Copy)]
pub struct TrackpadPacket {
    pub counter: u8,
    pub fingers: [Finger; 2],
}

/// The fingers of `s` that touch the pad, in order.
pub open spec fn active_fingers(s: Seq<Finger>) -> Seq<Finger>
    decreases s.len(),
{
    if s.len() == 0 {
        s
    } else {
        let rest = active_fingers(s.drop_last());
        if s.last().spec_is_active() {
            rest.push(s.last())
        } else {
            rest
        }
    }
}

impl TrackpadPacket {
    pub open spec fn has_active(self) -> bool {
        self.fingers[0].spec_is_active() || self.fingers[1].spec_is_active()
    }

    /// The fingers that touch the pad, in order.
    pub fn fingers(&self) -> (r: Vec<Finger>)
        ensures
            r@ == active_fingers(self.fingers@),
    {
        let mut r: Vec<Finger> = Vec::new();
        if self.fingers[0].is_active() {
            r.push(self.fingers[0]);
        }
        if self.fingers[1].is_active() {
            r.push(self.fingers[1]);
        }
        proof {
            reveal_with_fuel(active_fingers, 3);
            let s = self.fingers@;
            assert(s.drop_last().drop_last() =~= Seq::<Finger>::empty());
            assert(s.drop_last() =~= seq![s[0]]);
            assert(s.drop_last().last() == s[0]);
            assert(active_fingers(s.drop_last().drop_last()) =~= Seq::<Finger>::empty());
        }
        assert(r@ =~= active_fingers(self.fingers@));
        r
    }
}

/// The packets of `s` with a finger on the pad, in order.
pub open spec fn touching_packets(s: Seq<TrackpadPacket>) -> Seq<TrackpadPacket>
    decreases s.len(),
{
    if s.len() == 0 {
        s
    } else {
        let rest = touching_packets(s.drop_last());
        if s.last().has_active() {
            rest.push(s.last())
        } else {
            rest
        }
    }
}

fn touching_prefix(packets: &[TrackpadPacket], n: usize) -> (r: Vec<TrackpadPacket>)
    requires
        n <= packets@.len(),
    ensures
        r@ == touching_packets(packets@.subrange(0, n as int)),
{
    let mut r: Vec<TrackpadPacket> = Vec::new();
    let mut i: usize = 0;
    while i < n
        invariant
            i <= n <= packets@.len(),
            r@ == touching_packets(packets@.subrange(0, i as int)),
        decreases n - i,
    {
        proof {
            assert(packets@.subrange(0, i + 1).drop_last() =~= packets@.subrange(0, i as int));
        }
        let p = packets[i];
        if p.fingers[0].is_active() || p.fingers[1].is_active() {
            r.push(p);
        }
        i += 1;
    }
    r
}

/// The touch pad in a Bluetooth report: how many packets, then four.
#[derive(Debug, Clone, Copy)]
pub struct BTTrackpad {
    pub len: u8,
    pub packets: [TrackpadPacket; 4],
}

impl BTTrackpad {
    /// The packets given, with a finger on the pad, in order.
    pub fn packets(&self) -> (r: Vec<TrackpadPacket>)
        ensures
            r@ == touching_packets(self.packets@.subrange(0, if self.len < 4 { self.len as int } else { 4 })),
    {
        let n: usize = if self.len < 4 { self.len as usize } else { 4 };
        touching_prefix(&self.packets, n)
    }
}

/// The touch pad in a USB report: two packets.
#[derive(Debug, Clone, Copy)]
pub struct USBTrackpad {
    pub _unknown: u8,
    pub packets: [TrackpadPacket; 2],
}

impl USBTrackpad {
    /// The packets with a finger on the pad, in order.
    pub fn packets(&self) -> (r: Vec<TrackpadPacket>)
        ensures
            r@ == touching_packets(self.packets@),
    {
        let r = touching_prefix(&self.packets, 2);
        assert(self.packets@.subrange(0, 2) =~= self.packets@);
        r
    }
}

/// The sticks, the buttons and the triggers.
#[derive(Debug, Clone, Copy)]
pub struct SimpleReport {
    pub left_stick: Stick,
    pub right_stick: Stick,
    pub buttons: Buttons,
    pub left_trigger: Trigger,
    pub right_trigger: Trigger,
}

/// The simple report and the motion sensors.
#[derive(Debug, Clone, Copy)]
pub struct FullReport {
    pub base: SimpleReport,
    pub _unknown_timestamp: [u8; 2],
    pub battery_level: u8,
    pub gyro: Gyro,
    pub accel: Accel,
    pub _unknown_0x00: [u8; 5],
    pub type_: Type,
    pub unknown_0x00_2: [u8; 2],
}

/// The simple Bluetooth report.
#[derive(Debug, Clone, Copy)]
pub struct BTSimpleReport {
    pub base: SimpleReport,
}

/// The full Bluetooth report.
#[derive(Debug, Clone, Copy)]
pub struct BTFullReport {
    pub _unknown1: u8,
    pub report_id: u8,
    pub full: FullReport,
    pub trackpad: BTTrackpad,
    pub _unknown2: [u8; 2],
    pub crc32: [u8; 4],
}

/// The USB report.
#[derive(Debug, Clone, Copy)]
pub struct USBReport {
    pub full: FullReport,
    pub trackpad: USBTrackpad,
    pub _unknown: [u8; 12],
}

/// The little-endian integer at `o`.
pub open spec fn i16le_at(s: Seq<u8>, o: int) -> I16LE {
    I16LE([s[o], s[o + 1]])
}

/// The simple report at `o`.
pub open spec fn simple_at(s: Seq<u8>, o: int) -> SimpleReport {
    SimpleReport {
        left_stick: Stick { x: s[o], y: s[o + 1] },
        right_stick: Stick { x: s[o + 2], y: s[o + 3] },
        buttons: Buttons([s[o + 4], s[o + 5], s[o + 6]]),
        left_trigger: Trigger(s[o + 7]),
        right_trigger: Trigger(s[o + 8]),
    }
}

/// The full report at `o`, 32 bytes.
pub open spec fn full_at(s: Seq<u8>, o: int) -> FullReport {
    FullReport {
        base: simple_at(s, o),
        _unknown_timestamp: [s[o + 9], s[o + 10]],
        battery_level: s[o + 11],
        gyro: Gyro { pitch: i16le_at(s, o + 12), yaw: i16le_at(s, o + 14), roll: i16le_at(s, o + 16) },
        accel: Accel { y: i16le_at(s, o + 18), z: i16le_at(s, o + 20), x: i16le_at(s, o + 22) },
        _unknown_0x00: [s[o + 24], s[o + 25], s[o + 26], s[o + 27], s[o + 28]],
        type_: Type(s[o + 29]),
        unknown_0x00_2: [s[o + 30], s[o + 31]],
    }
}

/// The finger at `o`, four bytes.
pub open spec fn finger_at(s: Seq<u8>, o: int) -> Finger {
    Finger { id: s[o], coordinate: FingerCoord(s[o + 1], s[o + 2], s[o + 3]) }
}

/// The touch pad packet at `o`, nine bytes.
pub open spec fn packet_at(s: Seq<u8>, o: int) -> TrackpadPacket {
    TrackpadPacket { counter: s[o], fingers: [finger_at(s, o + 1), finger_at(s, o + 5)] }
}

fn read_i16le(s: &[u8], o: usize) -> (r: I16LE)
    requires
        o + 2 <= s@.len(),
        s@.len() == 79,
    ensures
        r == i16le_at(s@, o as int),
{
    I16LE([s[o], s[o + 1]])
}

fn read_simple(s: &[u8], o: usize) -> (r: SimpleReport)
    requires
        o + 9 <= s@.len(),
        s@.len() == 79,
    ensures
        r == simple_at(s@, o as int),
{
    SimpleReport {
        left_stick: Stick { x: s[o], y: s[o + 1] },
        right_stick: Stick { x: s[o + 2], y: s[o + 3] },
        buttons: Buttons([s[o + 4], s[o + 5], s[o + 6]]),
        left_trigger: Trigger(s[o + 7]),
        right_trigger: Trigger(s[o + 8]),
    }
}

fn read_full(s: &[u8], o: usize) -> (r: FullReport)
    requires
        o + 32 <= s@.len(),
        s@.len() == 79,
    ensures
        r == full_at(s@, o as int),
{
    FullReport {
        base: read_simple(s, o),
        _unknown_timestamp: [s[o + 9], s[o + 10]],
        battery_level: s[o + 11],
        gyro: Gyro { pitch: read_i16le(s, o + 12), yaw: read_i16le(s, o + 14), roll: read_i16le(s, o + 16) },
        accel: Accel { y: read_i16le(s, o + 18), z: read_i16le(s, o + 20), x: read_i16le(s, o + 22) },
        _unknown_0x00: [s[o + 24], s[o + 25], s[o + 26], s[o + 27], s[o + 28]],
        type_: Type(s[o + 29]),
        unknown_0x00_2: [s[o + 30], s[o + 31]],
    }
}

fn read_finger(s: &[u8], o: usize) -> (r: Finger)
    requires
        o + 4 <= s@.len(),
        s@.len() == 79,
    ensures
        r == finger_at(s@, o as int),
{
    Finger { id: s[o], coordinate: FingerCoord(s[o + 1], s[o + 2], s[o + 3]) }
}

fn read_packet(s: &[u8], o: usize) -> (r: TrackpadPacket)
    requires
        o + 9 <= s@.len(),
        s@.len() == 79,
    ensures
        r == packet_at(s@, o as int),
{
    TrackpadPacket { counter: s[o], fingers: [read_finger(s, o + 1), read_finger(s, o + 5)] }
}

/// A report read from the controller, with one spare byte.
#[derive(Debug, Clone, Copy)]
pub struct InputReport {
    pub raw: [u8; 79],
}

impl InputReport {
    pub open spec fn spec_id(self) -> Option<InputReportId> {
        InputReportId::spec_from_u8(self.raw[0])
    }

    /// An empty report, to read into.
    pub fn new() -> (r: InputReport)
        ensures
            forall|i: int| 0 <= i < 79 ==> r.raw[i] == 0,
    {
        InputReport { raw: [0; 79] }
    }

    /// The report holding the first bytes of `bytes`, the rest zero.
    pub fn from_bytes(bytes: &[u8]) -> (r: InputReport)
        ensures
            forall|i: int| 0 <= i < 79 && i < bytes@.len() ==> r.raw[i] == bytes@[i],
            forall|i: int| bytes@.len() <= i < 79 ==> r.raw[i] == 0,
    {
        let mut raw = [0u8; 79];
        let mut i: usize = 0;
        while i < 79 && i < bytes.len()
            invariant
                i <= 79,
                i <= bytes@.len(),
                forall|j: int| 0 <= j < i ==> raw[j] == bytes@[j],
                forall|j: int| i <= j < 79 ==> raw[j] == 0,
            decreases 79 - i,
        {
            raw[i] = bytes[i];
            i += 1;
        }
        InputReport { raw }
    }

    pub fn id(&self) -> (r: RawId<InputReportId>)
        ensures
            r.0 == self.raw[0],
    {
        RawId::from_raw(self.raw[0])
    }

    /// The simple Bluetooth report, for that id.
    pub fn bt_simple(&self) -> (r: Option<BTSimpleReport>)
        ensures
            r is Some <==> self.spec_id() == Some(InputReportId::Simple),
            r matches Some(b) ==> b.base == simple_at(self.raw@, 1),
    {
        if self.id().is(InputReportId::Simple) {
            Some(BTSimpleReport { base: read_simple(&self.raw, 1) })
        } else {
            None
        }
    }

    /// The full Bluetooth report, for that id.
    pub fn bt_full(&self) -> (r: Option<BTFullReport>)
        ensures
            r is Some <==> self.spec_id() == Some(InputReportId::Full),
            r matches Some(b) ==> {
                &&& b._unknown1 == self.raw[1]
                &&& b.report_id == self.raw[2]
                &&& b.full == full_at(self.raw@, 3)
                &&& b.trackpad.len == self.raw[35]
                &&& forall|k: int| 0 <= k < 4 ==> #[trigger] b.trackpad.packets[k] == packet_at(self.raw@, 36 + 9 * k)
                &&& b._unknown2@ == self.raw@.subrange(72, 74)
                &&& b.crc32@ == self.raw@.subrange(74, 78)
            },
    {
        if self.id().is(InputReportId::Full) {
            let s = &self.raw;
            let r = BTFullReport {
                _unknown1: s[1],
                report_id: s[2],
                full: read_full(s, 3),
                trackpad: BTTrackpad {
                    len: s[35],
                    packets: [read_packet(s, 36), read_packet(s, 45), read_packet(s, 54), read_packet(s, 63)],
                },
                _unknown2: [s[72], s[73]],
                crc32: [s[74], s[75], s[76], s[77]],
            };
            assert(r._unknown2@ =~= self.raw@.subrange(72, 74));
            assert(r.crc32@ =~= self.raw@.subrange(74, 78));
            Some(r)
        } else {
            None
        }
    }

    /// The USB report, which has the id of the simple Bluetooth report.
    pub fn usb_full(&self) -> (r: Option<USBReport>)
        ensures
            r is Some <==> self.spec_id() == Some(InputReportId::Simple),
            r matches Some(u) ==> {
                &&& u.full == full_at(self.raw@, 1)
                &&& u.trackpad._unknown == self.raw[33]
                &&& u.trackpad.packets[0] == packet_at(self.raw@, 34)
                &&& u.trackpad.packets[1] == packet_at(self.raw@, 43)
                &&& u._unknown@ == self.raw@.subrange(52, 64)
            },
    {
        if self.id().is(InputReportId::Simple) {
            let s = &self.raw;
            let r = USBReport {
                full: read_full(s, 1),
                trackpad: USBTrackpad { _unknown: s[33], packets: [read_packet(s, 34), read_packet(s, 43)] },
                _unknown: [s[52], s[53], s[54], s[55], s[56], s[57], s[58], s[59], s[60], s[61], s[62], s[63]],
            };
            assert(r._unknown@ =~= self.raw@.subrange(52, 64));
            Some(r)
        } else {
            None
        }
    }

    /// How the controller is connected, from the number of bytes read: the
    /// USB report, or one of the Bluetooth reports, after the id.
    pub fn conn_type(nb_read: usize) -> (r: ConnectionType)
        requires
            nb_read == 64 || nb_read == 10 || nb_read == 78,
        ensures
            r == (if nb_read == 64 {
                ConnectionType::USB
            } else {
                ConnectionType::Bluetooth
            }),
    {
        let n = nb_read - 1;
        if n == 63 {
            ConnectionType::USB
        } else {
            ConnectionType::Bluetooth
        }
    }
}

/// The keys of a DualShock 4 named after those of the Joy-Con: the pad,
/// the face buttons by position, the shoulders and triggers, the sticks,
/// the touch pad as minus, options as plus, share as capture and the PS
/// button as home; there is no SL nor SR.
pub open spec fn ds4_key_seq(b: Buttons) -> Seq<KeyStatus> {
    let d = b.0[0] % 8;
    seq![
        status(d <= 1 || d == 7),
        status(3 <= d <= 5),
        status(5 <= d <= 7),
        status(1 <= d <= 3),
        status((b.0[0] / 128) % 2 == 1),
        status((b.0[0] / 32) % 2 == 1),
        status((b.0[0] / 64) % 2 == 1),
        status((b.0[0] / 16) % 2 == 1),
        status(b.0[1] % 2 == 1),
        status((b.0[1] / 2) % 2 == 1),
        status((b.0[1] / 4) % 2 == 1),
        status((b.0[1] / 8) % 2 == 1),
        KeyStatus::Released,
        KeyStatus::Released,
        status((b.0[1] / 64) % 2 == 1),
        status((b.0[1] / 128) % 2 == 1),
        status((b.0[2] / 2) % 2 == 1),
        status((b.0[1] / 32) % 2 == 1),
        status((b.0[1] / 16) % 2 == 1),
        status(b.0[2] % 2 == 1),
    ]
}

/// Each key of the gamepad is pressed exactly when its DualShock 4 button
/// is: the pad directions (up covers up-left and up-right, and so on);
/// triangle, cross, circle and square as N, S, E and W; L1, R1, L2, R2 as L,
/// R, ZL, ZR; the stick clicks; the touch pad as minus, options as plus,
/// share as capture and PS as HOME. SL and SR have no button and stay
/// released.
pub proof fn law_ds4_key_buttons(b: Buttons)
    ensures
        ds4_key_seq(b).len() == crate::gamepad::JOYKEY_COUNT,
        ({
            let d = b.0[0] % 8;
            &&& ds4_key_seq(b)[JoyKey::Up.spec_index() as int] == status(d <= 1 || d == 7)
            &&& ds4_key_seq(b)[JoyKey::Down.spec_index() as int] == status(3 <= d <= 5)
            &&& ds4_key_seq(b)[JoyKey::Left.spec_index() as int] == status(5 <= d <= 7)
            &&& ds4_key_seq(b)[JoyKey::Right.spec_index() as int] == status(1 <= d <= 3)
            &&& ds4_key_seq(b)[JoyKey::N.spec_index() as int] == status((b.0[0] / 128) % 2 == 1)
            &&& ds4_key_seq(b)[JoyKey::S.spec_index() as int] == status((b.0[0] / 32) % 2 == 1)
            &&& ds4_key_seq(b)[JoyKey::E.spec_index() as int] == status((b.0[0] / 64) % 2 == 1)
            &&& ds4_key_seq(b)[JoyKey::W.spec_index() as int] == status((b.0[0] / 16) % 2 == 1)
            &&& ds4_key_seq(b)[JoyKey::L.spec_index() as int] == status(b.0[1] % 2 == 1)
            &&& ds4_key_seq(b)[JoyKey::R.spec_index() as int] == status((b.0[1] / 2) % 2 == 1)
            &&& ds4_key_seq(b)[JoyKey::ZL.spec_index() as int] == status((b.0[1] / 4) % 2 == 1)
            &&& ds4_key_seq(b)[JoyKey::ZR.spec_index() as int] == status((b.0[1] / 8) % 2 == 1)
            &&& ds4_key_seq(b)[JoyKey::L3.spec_index() as int] == status((b.0[1] / 64) % 2 == 1)
            &&& ds4_key_seq(b)[JoyKey::R3.spec_index() as int] == status((b.0[1] / 128) % 2 == 1)
            &&& ds4_key_seq(b)[JoyKey::Minus.spec_index() as int] == status((b.0[2] / 2) % 2 == 1)
            &&& ds4_key_seq(b)[JoyKey::Plus.spec_index() as int] == status((b.0[1] / 32) % 2 == 1)
            &&& ds4_key_seq(b)[JoyKey::Capture.spec_index() as int] == status((b.0[1] / 16) % 2 == 1)
            &&& ds4_key_seq(b)[JoyKey::Home.spec_index() as int] == status(b.0[2] % 2 == 1)
            &&& ds4_key_seq(b)[JoyKey::SL.spec_index() as int] == KeyStatus::Released
            &&& ds4_key_seq(b)[JoyKey::SR.spec_index() as int] == KeyStatus::Released
        }),
{
}

fn key(b: bool) -> (r: KeyStatus)
    ensures
        r == status(b),
{
    if b {
        KeyStatus::Pressed
    } else {
        KeyStatus::Released
    }
}

/// The status of each key of the gamepad.
pub fn ds4_keys(b: &Buttons) -> (r: KeyMap)
    ensures
        r.keys@ == ds4_key_seq(*b),
{
    let d = b.dpad();
    let mut keys: Vec<KeyStatus> = Vec::new();
    keys.push(key(d.up()));
    keys.push(key(d.down()));
    keys.push(key(d.left()));
    keys.push(key(d.right()));
    assert(keys@ =~= ds4_key_seq(*b).subrange(0, 4));
    keys.push(key(b.triangle()));
    keys.push(key(b.cross()));
    keys.push(key(b.circle()));
    keys.push(key(b.square()));
    assert(keys@ =~= ds4_key_seq(*b).subrange(0, 8));
    keys.push(key(b.l1()));
    keys.push(key(b.r1()));
    keys.push(key(b.l2()));
    keys.push(key(b.r2()));
    assert(keys@ =~= ds4_key_seq(*b).subrange(0, 12));
    keys.push(KeyStatus::Released);
    keys.push(KeyStatus::Released);
    keys.push(key(b.l3()));
    keys.push(key(b.r3()));
    assert(keys@ =~= ds4_key_seq(*b).subrange(0, 16));
    keys.push(key(b.tpad()));
    keys.push(key(b.options()));
    keys.push(key(b.share()));
    keys.push(key(b.ps()));
    assert(keys@ =~= ds4_key_seq(*b));
    KeyMap { keys }
}

/// The driver of the DualShock 4.
pub struct DS4Driver;

impl DS4Driver {
    /// Whether the driver takes the HID device with these ids.
    pub fn supports(&self, vendor_id: u16, product_id: u16) -> (r: bool)
        ensures
            r == (vendor_id == HID_VENDOR_ID && (product_id == HID_PRODUCT_ID_OLD || product_id
                == HID_PRODUCT_ID_NEW)),
    {
        vendor_id == HID_VENDOR_ID && (product_id == HID_PRODUCT_ID_OLD || product_id == HID_PRODUCT_ID_NEW)
    }
}

} // verus!
