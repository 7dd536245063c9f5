//! Identifiers, raw one-byte ids and little-endian integers shared by the
//! input and output reports.
use crate::bytes::{as_signed16, as_unsigned16, le_u16, read_i16_le, read_u16_le, write_i16_le, write_u16_le};
use core::marker::PhantomData;
use vstd::prelude::*;
use vstd::std_specs::convert::FromSpecImpl;

verus! {

pub const NINTENDO_VENDOR_ID: u16 = 1406;

pub const JOYCON_L_BT: u16 = 0x2006;

pub const JOYCON_R_BT: u16 = 0x2007;

pub const PRO_CONTROLLER: u16 = 0x2009;

pub const JOYCON_CHARGING_GRIP: u16 = 0x200e;

/// An enumeration whose values are encoded as one byte on the wire.
///
/// `from_u8` decodes a byte (`None` for a byte that names no value) and
/// `to_u8` encodes a value; the two lemmas say that each undoes the other.
pub trait IdEnum: Sized + Copy {
    spec fn spec_from_u8(b: u8) -> Option<Self>;

    spec fn spec_to_u8(self) -> u8;

    fn from_u8(b: u8) -> (r: Option<Self>)
        ensures
            r == Self::spec_from_u8(b),
    ;

    fn to_u8(self) -> (r: u8)
        ensures
            r == self.spec_to_u8(),
    ;

    proof fn lemma_to_from(self)
        ensures
            Self::spec_from_u8(self.spec_to_u8()) == Some(self),
    ;

    proof fn lemma_from_to(b: u8)
        ensures
            Self::spec_from_u8(b) matches Some(id) ==> id.spec_to_u8() == b,
    ;
}

/// A one-byte identifier as found in a report, which may name no known value.
#[derive(Debug)]
pub struct RawId<Id>(pub u8, pub PhantomData<Id>);

impl<Id> Clone for RawId<Id> {
    fn clone(&self) -> (r: Self)
        ensures
            r == *self,
    {
        RawId(self.0, PhantomData)
    }
}

impl<Id> Copy for RawId<Id> {

}

impl<Id: IdEnum> RawId<Id> {
    /// The value named by the byte, if any.
    pub open spec fn spec_try_into(self) -> Option<Id> {
        Id::spec_from_u8(self.0)
    }

    /// The identifier that encodes `id`.
    pub open spec fn of(id: Id) -> Self {
        RawId(id.spec_to_u8(), PhantomData)
    }

    /// Decodes the byte; `None` when it names no value.
    pub fn try_into(self) -> (r: Option<Id>)
        ensures
            r == self.spec_try_into(),
    {
        Id::from_u8(self.0)
    }

    /// Wraps a byte read from the wire.
    pub fn from_raw(raw: u8) -> (r: Self)
        ensures
            r.0 == raw,
    {
        RawId(raw, PhantomData)
    }

    /// The byte as found on the wire.
    pub fn raw(self) -> (r: u8)
        ensures
            r == self.0,
    {
        self.0
    }

    /// Whether the byte names `id`.
    pub fn is(self, id: Id) -> (r: bool)
        ensures
            r == (self.spec_try_into() == Some(id)),
    {
        proof {
            id.lemma_to_from();
            Id::lemma_from_to(self.0);
        }
        self.0 == id.to_u8()
    }
}

impl<Id: IdEnum> From<Id> for RawId<Id> {
    fn from(id: Id) -> (r: Self) {
        RawId(id.to_u8(), PhantomData)
    }
}

impl<Id: IdEnum> FromSpecImpl<Id> for RawId<Id> {
    open spec fn obeys_from_spec() -> bool {
        true
    }

    open spec fn from_spec(id: Id) -> Self {
        RawId::of(id)
    }
}

/// Encoding a value and decoding the byte gives the value back.
pub proof fn law_raw_id_roundtrip<Id: IdEnum>(id: Id)
    ensures
        RawId::<Id>::of(id).spec_try_into() == Some(id),
{
    id.lemma_to_from();
}

/// An unsigned 16-bit integer stored little-endian.
#[derive(Copy, Clone, Debug, PartialEq, Eq)]
pub struct U16LE(pub [u8; 2]);

impl U16LE {
    pub open spec fn value(self) -> u16 {
        le_u16(self.0[0], self.0[1])
    }

    /// The encoding of `u`: low byte first.
    pub open spec fn of(u: u16) -> U16LE {
        U16LE([(u % 256) as u8, (u / 256) as u8])
    }
}

impl From<u16> for U16LE {
    fn from(u: u16) -> (r: U16LE) {
        let b = write_u16_le(u);
        U16LE([b[0], b[1]])
    }
}

impl FromSpecImpl<u16> for U16LE {
    open spec fn obeys_from_spec() -> bool {
        true
    }

    open spec fn from_spec(u: u16) -> U16LE {
        U16LE::of(u)
    }
}

impl From<U16LE> for u16 {
    fn from(u: U16LE) -> (r: u16) {
        read_u16_le(&u.0)
    }
}

impl FromSpecImpl<U16LE> for u16 {
    open spec fn obeys_from_spec() -> bool {
        true
    }

    open spec fn from_spec(u: U16LE) -> u16 {
        u.value()
    }
}

/// Storing a `u16` little-endian and reading it back gives it unchanged.
pub proof fn law_u16le_roundtrip(u: u16)
    ensures
        U16LE::of(u).value() == u,
{
}

/// A signed 16-bit integer stored little-endian in two's complement.
#[derive(Copy, Clone, Debug, PartialEq, Eq)]
pub struct I16LE(pub [u8; 2]);

impl I16LE {
    pub open spec fn value(self) -> i16 {
        as_signed16(le_u16(self.0[0], self.0[1]))
    }

    /// The encoding of `i`: its two's complement pattern, low byte first.
    pub open spec fn of(i: i16) -> I16LE {
        I16LE([(as_unsigned16(i) % 256) as u8, (as_unsigned16(i) / 256) as u8])
    }
}

impl From<i16> for I16LE {
    fn from(u: i16) -> (r: I16LE) {
        let b = write_i16_le(u);
        I16LE([b[0], b[1]])
    }
}

impl FromSpecImpl<i16> for I16LE {
    open spec fn obeys_from_spec() -> bool {
        true
    }

    open spec fn from_spec(u: i16) -> I16LE {
        I16LE::of(u)
    }
}

impl From<I16LE> for i16 {
    fn from(u: I16LE) -> (r: i16) {
        read_i16_le(&u.0)
    }
}

impl FromSpecImpl<I16LE> for i16 {
    open spec fn obeys_from_spec() -> bool {
        true
    }

    open spec fn from_spec(u: I16LE) -> i16 {
        u.value()
    }
}

/// Storing an `i16` little-endian and reading it back gives it unchanged.
pub proof fn law_i16le_roundtrip(i: i16)
    ensures
        I16LE::of(i).value() == i,
{
}

/// Identifier of an input report, its first byte.
#[derive(Copy, Clone, Debug, PartialEq, Eq, Structural)]
pub enum InputReportId {
    Normal,
    StandardAndSubcmd,
    MCUFwUpdate,
    StandardFull,
    StandardFullMCU,
}

impl IdEnum for InputReportId {
    open spec fn spec_from_u8(b: u8) -> Option<Self> {
        if b == 0x3f {
            Some(InputReportId::Normal)
        } else if b == 0x21 {
            Some(InputReportId::StandardAndSubcmd)
        } else if b == 0x23 {
            Some(InputReportId::MCUFwUpdate)
        } else if b == 0x30 {
            Some(InputReportId::StandardFull)
        } else if b == 0x31 {
            Some(InputReportId::StandardFullMCU)
        } else {
            None
        }
    }

    open spec fn spec_to_u8(self) -> u8 {
        match self {
            InputReportId::Normal => 0x3f,
            InputReportId::StandardAndSubcmd => 0x21,
            InputReportId::MCUFwUpdate => 0x23,
            InputReportId::StandardFull => 0x30,
            InputReportId::StandardFullMCU => 0x31,
        }
    }

    fn from_u8(b: u8) -> (r: Option<Self>) {
        match b {
            0x3f => Some(InputReportId::Normal),
            0x21 => Some(InputReportId::StandardAndSubcmd),
            0x23 => Some(InputReportId::MCUFwUpdate),
            0x30 => Some(InputReportId::StandardFull),
            0x31 => Some(InputReportId::StandardFullMCU),
            _ => None,
        }
    }

    fn to_u8(self) -> (r: u8) {
        match self {
            InputReportId::Normal => 0x3f,
            InputReportId::StandardAndSubcmd => 0x21,
            InputReportId::MCUFwUpdate => 0x23,
            InputReportId::StandardFull => 0x30,
            InputReportId::StandardFullMCU => 0x31,
        }
    }

    proof fn lemma_to_from(self) {
    }

    proof fn lemma_from_to(b: u8) {
    }
}

/// Identifier of a subcommand; the controller ignores the unused values.
#[derive(Copy, Clone, Debug, PartialEq, Eq, Structural)]
pub enum SubcommandId {
    GetOnlyControllerState,
    BluetoothManualPairing,
    RequestDeviceInfo,
    SetInputReportMode,
    GetTriggerButtonsElapsedTime,
    SetShipmentMode,
    SPIRead,
    SPIWrite,
    SetMCUConf,
    SetMCUState,
    SetUnknownData,
    SetPlayerLights,
    SetHomeLight,
    SetIMUMode,
    SetIMUSens,
    EnableVibration,
    MaybeAccessory,
    Unknown0x59,
    Unknown0x5a,
    Unknown0x5b,
    Unknown0x5c,
}

impl IdEnum for SubcommandId {
    open spec fn spec_from_u8(b: u8) -> Option<Self> {
        if b == 0x00 {
            Some(SubcommandId::GetOnlyControllerState)
        } else if b == 0x01 {
            Some(SubcommandId::BluetoothManualPairing)
        } else if b == 0x02 {
            Some(SubcommandId::RequestDeviceInfo)
        } else if b == 0x03 {
            Some(SubcommandId::SetInputReportMode)
        } else if b == 0x04 {
            Some(SubcommandId::GetTriggerButtonsElapsedTime)
        } else if b == 0x08 {
            Some(SubcommandId::SetShipmentMode)
        } else if b == 0x10 {
            Some(SubcommandId::SPIRead)
        } else if b == 0x11 {
            Some(SubcommandId::SPIWrite)
        } else if b == 0x21 {
            Some(SubcommandId::SetMCUConf)
        } else if b == 0x22 {
            Some(SubcommandId::SetMCUState)
        } else if b == 0x24 {
            Some(SubcommandId::SetUnknownData)
        } else if b == 0x30 {
            Some(SubcommandId::SetPlayerLights)
        } else if b == 0x38 {
            Some(SubcommandId::SetHomeLight)
        } else if b == 0x40 {
            Some(SubcommandId::SetIMUMode)
        } else if b == 0x41 {
            Some(SubcommandId::SetIMUSens)
        } else if b == 0x48 {
            Some(SubcommandId::EnableVibration)
        } else if b == 0x58 {
            Some(SubcommandId::MaybeAccessory)
        } else if b == 0x59 {
            Some(SubcommandId::Unknown0x59)
        } else if b == 0x5a {
            Some(SubcommandId::Unknown0x5a)
        } else if b == 0x5b {
            Some(SubcommandId::Unknown0x5b)
        } else if b == 0x5c {
            Some(SubcommandId::Unknown0x5c)
        } else {
            None
        }
    }

    open spec fn spec_to_u8(self) -> u8 {
        match self {
            SubcommandId::GetOnlyControllerState => 0x00,
            SubcommandId::BluetoothManualPairing => 0x01,
            SubcommandId::RequestDeviceInfo => 0x02,
            SubcommandId::SetInputReportMode => 0x03,
            SubcommandId::GetTriggerButtonsElapsedTime => 0x04,
            SubcommandId::SetShipmentMode => 0x08,
            SubcommandId::SPIRead => 0x10,
            SubcommandId::SPIWrite => 0x11,
            SubcommandId::SetMCUConf => 0x21,
            SubcommandId::SetMCUState => 0x22,
            SubcommandId::SetUnknownData => 0x24,
            SubcommandId::SetPlayerLights => 0x30,
            SubcommandId::SetHomeLight => 0x38,
            SubcommandId::SetIMUMode => 0x40,
            SubcommandId::SetIMUSens => 0x41,
            SubcommandId::EnableVibration => 0x48,
            SubcommandId::MaybeAccessory => 0x58,
            SubcommandId::Unknown0x59 => 0x59,
            SubcommandId::Unknown0x5a => 0x5a,
            SubcommandId::Unknown0x5b => 0x5b,
            SubcommandId::Unknown0x5c => 0x5c,
        }
    }

    fn from_u8(b: u8) -> (r: Option<Self>) {
        match b {
            0x00 => Some(SubcommandId::GetOnlyControllerState),
            0x01 => Some(SubcommandId::BluetoothManualPairing),
            0x02 => Some(SubcommandId::RequestDeviceInfo),
            0x03 => Some(SubcommandId::SetInputReportMode),
            0x04 => Some(SubcommandId::GetTriggerButtonsElapsedTime),
            0x08 => Some(SubcommandId::SetShipmentMode),
            0x10 => Some(SubcommandId::SPIRead),
            0x11 => Some(SubcommandId::SPIWrite),
            0x21 => Some(SubcommandId::SetMCUConf),
            0x22 => Some(SubcommandId::SetMCUState),
            0x24 => Some(SubcommandId::SetUnknownData),
            0x30 => Some(SubcommandId::SetPlayerLights),
            0x38 => Some(SubcommandId::SetHomeLight),
            0x40 => Some(SubcommandId::SetIMUMode),
            0x41 => Some(SubcommandId::SetIMUSens),
            0x48 => Some(SubcommandId::EnableVibration),
            0x58 => Some(SubcommandId::MaybeAccessory),
            0x59 => Some(SubcommandId::Unknown0x59),
            0x5a => Some(SubcommandId::Unknown0x5a),
            0x5b => Some(SubcommandId::Unknown0x5b),
            0x5c => Some(SubcommandId::Unknown0x5c),
            _ => None,
        }
    }

    fn to_u8(self) -> (r: u8) {
        match self {
            SubcommandId::GetOnlyControllerState => 0x00,
            SubcommandId::BluetoothManualPairing => 0x01,
            SubcommandId::RequestDeviceInfo => 0x02,
            SubcommandId::SetInputReportMode => 0x03,
            SubcommandId::GetTriggerButtonsElapsedTime => 0x04,
            SubcommandId::SetShipmentMode => 0x08,
            SubcommandId::SPIRead => 0x10,
            SubcommandId::SPIWrite => 0x11,
            SubcommandId::SetMCUConf => 0x21,
            SubcommandId::SetMCUState => 0x22,
            SubcommandId::SetUnknownData => 0x24,
            SubcommandId::SetPlayerLights => 0x30,
            SubcommandId::SetHomeLight => 0x38,
            SubcommandId::SetIMUMode => 0x40,
            SubcommandId::SetIMUSens => 0x41,
            SubcommandId::EnableVibration => 0x48,
            SubcommandId::MaybeAccessory => 0x58,
            SubcommandId::Unknown0x59 => 0x59,
            SubcommandId::Unknown0x5a => 0x5a,
            SubcommandId::Unknown0x5b => 0x5b,
            SubcommandId::Unknown0x5c => 0x5c,
        }
    }

    proof fn lemma_to_from(self) {
    }

    proof fn lemma_from_to(b: u8) {
    }
}

/// A boolean as one byte.
#[derive(Copy, Clone, Debug, PartialEq, Eq, Structural)]
pub enum Bool {
    False,
    True,
}

impl IdEnum for Bool {
    open spec fn spec_from_u8(b: u8) -> Option<Self> {
        if b == 0 {
            Some(Bool::False)
        } else if b == 1 {
            Some(Bool::True)
        } else {
            None
        }
    }

    open spec fn spec_to_u8(self) -> u8 {
        match self {
            Bool::False => 0,
            Bool::True => 1,
        }
    }

    fn from_u8(b: u8) -> (r: Option<Self>) {
        match b {
            0 => Some(Bool::False),
            1 => Some(Bool::True),
            _ => None,
        }
    }

    fn to_u8(self) -> (r: u8) {
        match self {
            Bool::False => 0,
            Bool::True => 1,
        }
    }

    proof fn lemma_to_from(self) {
    }

    proof fn lemma_from_to(b: u8) {
    }
}

} // verus!
