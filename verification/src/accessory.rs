//! Commands to accessories such as the Ring-Con (subcommand 0x58).
//!
//! Known exchanges:
//!
//! - get the number of steps done offline: arguments `[4, 4, 49, 2]`,
//!   reply `[0, 8, 0, 0, 0, 0, nb_steps, 0, 0, 127 | 143]`;
//! - reset it: arguments `[8, 4, 49, 1, 4]`, reply `[0, 4]`.
use crate::common::{IdEnum, RawId, U16LE};
use vstd::prelude::*;

verus! {

/// A command to an accessory.
#[derive(Copy, Clone, Debug)]
pub struct AccessoryCommand {
    pub id: RawId<AccessoryCommandId>,
    pub ty: RawId<AccessoryType>,
    pub item: RawId<RingconItemId>,
    pub maybe_includes_arg: u8,
    pub maybe_arg_size: u8,
    pub raw: [u8; 18],
}

impl AccessoryCommand {
    /// The 23 bytes on the wire.
    pub open spec fn spec_bytes(self) -> Seq<u8> {
        seq![self.id.0, self.ty.0, self.item.0, self.maybe_includes_arg, self.maybe_arg_size] + self.raw@
    }

    /// The 23 bytes on the wire.
    pub fn bytes(&self) -> (r: [u8; 23])
        ensures
            r@ == self.spec_bytes(),
    {
        let mut r = [0u8; 23];
        r[0] = self.id.0;
        r[1] = self.ty.0;
        r[2] = self.item.0;
        r[3] = self.maybe_includes_arg;
        r[4] = self.maybe_arg_size;
        let mut i: usize = 0;
        while i < 18
            invariant
                i <= 18,
                r@.len() == 23,
                forall|j: int| 0 <= j < 5 + i ==> r@[j] == self.spec_bytes()[j],
            decreases 18 - i,
        {
            r[5 + i] = self.raw[i];
            i += 1;
        }
        assert(r@ =~= self.spec_bytes());
        r
    }

    /// Asks the Ring-Con for the number of steps done offline.
    pub fn get_offline_steps() -> (r: Self)
        ensures
            r.spec_bytes() == seq![4u8, 4, 49, 2, 0] + crate::bytes::zeros(18),
    {
        let r = AccessoryCommand {
            id: RawId::from(AccessoryCommandId::Get),
            ty: RawId::from(AccessoryType::Ringcon),
            item: RawId::from(RingconItemId::OfflineSteps),
            maybe_includes_arg: 2,
            maybe_arg_size: 0,
            raw: [0; 18],
        };
        assert(r.spec_bytes() =~= seq![4u8, 4, 49, 2, 0] + crate::bytes::zeros(18));
        r
    }

    /// Sets the number of steps done offline, with a checksum byte.
    ///
    /// Known checksums: 0 for 0 steps, 127 for 1, 254 for 2, 129 for 3,
    /// 113 for 4, 14 for 5, 74 for 0x64, 173 for 0xf0, 200 for 0x100,
    /// 183 for 0x101, 73 for 0x103, 185 for 0x104, 20 for 0x1f4.
    pub fn write_offline_steps(steps: u16, sum: u8) -> (r: Self)
        ensures
            r.spec_bytes() == seq![8u8, 4, 49, 1, 4, (steps % 256) as u8, (steps / 256) as u8, 0, sum]
                + crate::bytes::zeros(14),
    {
        let r = AccessoryCommand {
            id: RawId::from(AccessoryCommandId::Reset),
            ty: RawId::from(AccessoryType::Ringcon),
            item: RawId::from(RingconItemId::OfflineSteps),
            maybe_includes_arg: 1,
            maybe_arg_size: 4,
            raw: [
                (steps % 256) as u8,
                (steps / 256) as u8,
                0,
                sum,
                0,
                0,
                0,
                0,
                0,
                0,
                0,
                0,
                0,
                0,
                0,
                0,
                0,
                0,
            ],
        };
        assert(r.spec_bytes() =~= seq![8u8, 4, 49, 1, 4, (steps % 256) as u8, (steps / 256) as u8, 0, sum]
            + crate::bytes::zeros(14));
        r
    }
}

/// The reply of an accessory: an error code (254: nothing connected), the
/// length of the data, four bytes, then the data.
#[derive(Copy, Clone, Debug)]
pub struct AccessoryResponse {
    pub error: u8,
    pub len: u8,
    pub unknown_0x00: [u8; 4],
    pub u: [u8; 20],
}

/// What the error code of a reply means.
pub open spec fn accessory_error(code: u8) -> Result<(), Error> {
    if code == 0 {
        Ok(())
    } else if code == 254 {
        Err(Error::NoAccessoryConnected)
    } else {
        Err(Error::Other(code))
    }
}

impl AccessoryResponse {
    fn check_error(&self) -> (r: Result<(), Error>)
        ensures
            r == accessory_error(self.error),
    {
        match self.error {
            0 => Ok(()),
            254 => Err(Error::NoAccessoryConnected),
            e => Err(Error::Other(e)),
        }
    }

    /// The number of steps done offline, unless the reply is an error.
    pub fn offline_steps(&self) -> (r: Result<OfflineSteps, Error>)
        ensures
            r == (match accessory_error(self.error) {
                Ok(()) => Ok(
                    OfflineSteps {
                        steps: U16LE([self.u[0], self.u[1]]),
                        unknown0x00: self.u[2],
                        maybe_crc: self.u[3],
                    },
                ),
                Err(e) => Err(e),
            }),
    {
        match self.check_error() {
            Ok(()) => Ok(
                OfflineSteps {
                    steps: U16LE([self.u[0], self.u[1]]),
                    unknown0x00: self.u[2],
                    maybe_crc: self.u[3],
                },
            ),
            Err(e) => Err(e),
        }
    }
}

/// The steps done offline with the Ring-Con.
#[derive(Copy, Clone, Debug)]
pub struct OfflineSteps {
    pub steps: U16LE,
    pub unknown0x00: u8,
    pub maybe_crc: u8,
}

/// An error reported by an accessory.
#[derive(Debug, Clone, Copy, PartialEq, Eq, Structural)]
pub enum Error {
    NoAccessoryConnected,
    Other(u8),
}

impl Error {
    /// The message describing the error.
    pub fn message(&self) -> (r: &'static str)
        ensures
            self is NoAccessoryConnected ==> r@ == "no accessory connected"@,
            self is Other ==> r@ == "unknown accessory error"@,
    {
        match self {
            Error::NoAccessoryConnected => "no accessory connected",
            Error::Other(_) => "unknown accessory error",
        }
    }
}

/// Identifier of a command to an accessory.
#[derive(Copy, Clone, Debug, PartialEq, Eq, Structural)]
pub enum AccessoryCommandId {
    Get,
    Reset,
    Write,
}

impl IdEnum for AccessoryCommandId {
    open spec fn spec_from_u8(b: u8) -> Option<Self> {
        if b == 4 {
            Some(AccessoryCommandId::Get)
        } else if b == 8 {
            Some(AccessoryCommandId::Reset)
        } else if b == 20 {
            Some(AccessoryCommandId::Write)
        } else {
            None
        }
    }

    open spec fn spec_to_u8(self) -> u8 {
        match self {
            AccessoryCommandId::Get => 4,
            AccessoryCommandId::Reset => 8,
            AccessoryCommandId::Write => 20,
        }
    }

    fn from_u8(b: u8) -> (r: Option<Self>) {
        match b {
            4 => Some(AccessoryCommandId::Get),
            8 => Some(AccessoryCommandId::Reset),
            20 => Some(AccessoryCommandId::Write),
            _ => None,
        }
    }

    fn to_u8(self) -> (r: u8) {
        match self {
            AccessoryCommandId::Get => 4,
            AccessoryCommandId::Reset => 8,
            AccessoryCommandId::Write => 20,
        }
    }

    proof fn lemma_to_from(self) {
    }

    proof fn lemma_from_to(b: u8) {
    }
}

/// Kind of accessory.
#[derive(Copy, Clone, Debug, PartialEq, Eq, Structural)]
pub enum AccessoryType {
    Ringcon,
}

impl IdEnum for AccessoryType {
    open spec fn spec_from_u8(b: u8) -> Option<Self> {
        if b == 4 {
            Some(AccessoryType::Ringcon)
        } else {
            None
        }
    }

    open spec fn spec_to_u8(self) -> u8 {
        match self {
            AccessoryType::Ringcon => 4,
        }
    }

    fn from_u8(b: u8) -> (r: Option<Self>) {
        match b {
            4 => Some(AccessoryType::Ringcon),
            _ => None,
        }
    }

    fn to_u8(self) -> (r: u8) {
        match self {
            AccessoryType::Ringcon => 4,
        }
    }

    proof fn lemma_to_from(self) {
    }

    proof fn lemma_from_to(b: u8) {
    }
}

/// Item of the Ring-Con that a command reads or writes.
#[derive(Copy, Clone, Debug, PartialEq, Eq, Structural)]
pub enum RingconItemId {
    Calibration,
    OfflineSteps,
}

impl IdEnum for RingconItemId {
    open spec fn spec_from_u8(b: u8) -> Option<Self> {
        if b == 26 {
            Some(RingconItemId::Calibration)
        } else if b == 49 {
            Some(RingconItemId::OfflineSteps)
        } else {
            None
        }
    }

    open spec fn spec_to_u8(self) -> u8 {
        match self {
            RingconItemId::Calibration => 26,
            RingconItemId::OfflineSteps => 49,
        }
    }

    fn from_u8(b: u8) -> (r: Option<Self>) {
        match b {
            26 => Some(RingconItemId::Calibration),
            49 => Some(RingconItemId::OfflineSteps),
            _ => None,
        }
    }

    fn to_u8(self) -> (r: u8) {
        match self {
            RingconItemId::Calibration => 26,
            RingconItemId::OfflineSteps => 49,
        }
    }

    proof fn lemma_to_from(self) {
    }

    proof fn lemma_from_to(b: u8) {
    }
}

} // verus!
