//! The MCU of the right Joy-Con: IR camera, NFC reader and accessories.
pub mod ir;
pub mod ir_register;

use crate::bytes::{array36, array38, padded, sub_array, zeros};
use crate::common::{IdEnum, RawId, U16LE};
use crate::mcu::ir::{IRData, IRRegistersSlice, IRRequest, IRRequestId, IRStatus, MCUIRModeData, MCURegisters};
use vstd::prelude::*;
use vstd::std_specs::convert::FromSpecImpl;

verus! {

/// CRC-8 lookup table, polynomial 0x07.
pub const MCU_CRC8_TABLE: [u8; 256] = [
    0x00, 0x07, 0x0E, 0x09, 0x1C, 0x1B, 0x12, 0x15, 0x38, 0x3F, 0x36, 0x31, 0x24, 0x23, 0x2A, 0x2D,
    0x70, 0x77, 0x7E, 0x79, 0x6C, 0x6B, 0x62, 0x65, 0x48, 0x4F, 0x46, 0x41, 0x54, 0x53, 0x5A, 0x5D,
    0xE0, 0xE7, 0xEE, 0xE9, 0xFC, 0xFB, 0xF2, 0xF5, 0xD8, 0xDF, 0xD6, 0xD1, 0xC4, 0xC3, 0xCA, 0xCD,
    0x90, 0x97, 0x9E, 0x99, 0x8C, 0x8B, 0x82, 0x85, 0xA8, 0xAF, 0xA6, 0xA1, 0xB4, 0xB3, 0xBA, 0xBD,
    0xC7, 0xC0, 0xC9, 0xCE, 0xDB, 0xDC, 0xD5, 0xD2, 0xFF, 0xF8, 0xF1, 0xF6, 0xE3, 0xE4, 0xED, 0xEA,
    0xB7, 0xB0, 0xB9, 0xBE, 0xAB, 0xAC, 0xA5, 0xA2, 0x8F, 0x88, 0x81, 0x86, 0x93, 0x94, 0x9D, 0x9A,
    0x27, 0x20, 0x29, 0x2E, 0x3B, 0x3C, 0x35, 0x32, 0x1F, 0x18, 0x11, 0x16, 0x03, 0x04, 0x0D, 0x0A,
    0x57, 0x50, 0x59, 0x5E, 0x4B, 0x4C, 0x45, 0x42, 0x6F, 0x68, 0x61, 0x66, 0x73, 0x74, 0x7D, 0x7A,
    0x89, 0x8E, 0x87, 0x80, 0x95, 0x92, 0x9B, 0x9C, 0xB1, 0xB6, 0xBF, 0xB8, 0xAD, 0xAA, 0xA3, 0xA4,
    0xF9, 0xFE, 0xF7, 0xF0, 0xE5, 0xE2, 0xEB, 0xEC, 0xC1, 0xC6, 0xCF, 0xC8, 0xDD, 0xDA, 0xD3, 0xD4,
    0x69, 0x6E, 0x67, 0x60, 0x75, 0x72, 0x7B, 0x7C, 0x51, 0x56, 0x5F, 0x58, 0x4D, 0x4A, 0x43, 0x44,
    0x19, 0x1E, 0x17, 0x10, 0x05, 0x02, 0x0B, 0x0C, 0x21, 0x26, 0x2F, 0x28, 0x3D, 0x3A, 0x33, 0x34,
    0x4E, 0x49, 0x40, 0x47, 0x52, 0x55, 0x5C, 0x5B, 0x76, 0x71, 0x78, 0x7F, 0x6A, 0x6D, 0x64, 0x63,
    0x3E, 0x39, 0x30, 0x37, 0x22, 0x25, 0x2C, 0x2B, 0x06, 0x01, 0x08, 0x0F, 0x1A, 0x1D, 0x14, 0x13,
    0xAE, 0xA9, 0xA0, 0xA7, 0xB2, 0xB5, 0xBC, 0xBB, 0x96, 0x91, 0x98, 0x9F, 0x8A, 0x8D, 0x84, 0x83,
    0xDE, 0xD9, 0xD0, 0xD7, 0xC2, 0xC5, 0xCC, 0xCB, 0xE6, 0xE1, 0xE8, 0xEF, 0xFA, 0xFD, 0xF4, 0xF3,
];

/// The table entry for `i`.
pub open spec fn crc8_table(i: u8) -> u8 {
    MCU_CRC8_TABLE@[i as int]
}

/// The CRC register after feeding the bytes of `s` to a register holding `crc`.
pub open spec fn crc8_update(crc: u8, s: Seq<u8>) -> u8
    decreases s.len(),
{
    if s.len() == 0 {
        crc
    } else {
        crc8_table(crc8_update(crc, s.drop_last()) ^ s.last())
    }
}

/// The CRC-8 of the byte `id` followed by the bytes of `s`.
pub open spec fn crc8(id: u8, s: Seq<u8>) -> u8 {
    crc8_update(crc8_table(id), s)
}

/// The CRC-8 of `id` followed by `bytes`.
pub fn compute_crc8(id: u8, bytes: &[u8]) -> (r: u8)
    ensures
        r == crc8(id, bytes@),
{
    let mut crc = MCU_CRC8_TABLE[id as usize];
    let mut i: usize = 0;
    while i < bytes.len()
        invariant
            i <= bytes@.len(),
            crc == crc8_update(crc8_table(id), bytes@.subrange(0, i as int)),
        decreases bytes@.len() - i,
    {
        assert(bytes@.subrange(0, i + 1).drop_last() =~= bytes@.subrange(0, i as int));
        crc = MCU_CRC8_TABLE[(crc ^ bytes[i]) as usize];
        i += 1;
    }
    assert(bytes@.subrange(0, bytes@.len() as int) =~= bytes@);
    crc
}

/// Identifier of a report of the MCU.
#[derive(Copy, Clone, Debug, PartialEq, Eq, Structural)]
pub enum MCUReportId {
    Empty,
    StateReport,
    IRData,
    BusyInitializing,
    IRStatus,
    IRRegisters,
    NFCState,
    NFCReadData,
    EmptyAwaitingCmd,
}

impl IdEnum for MCUReportId {
    open spec fn spec_from_u8(b: u8) -> Option<Self> {
        if b == 0x00 {
            Some(MCUReportId::Empty)
        } else if b == 0x01 {
            Some(MCUReportId::StateReport)
        } else if b == 0x03 {
            Some(MCUReportId::IRData)
        } else if b == 0x0b {
            Some(MCUReportId::BusyInitializing)
        } else if b == 0x13 {
            Some(MCUReportId::IRStatus)
        } else if b == 0x1b {
            Some(MCUReportId::IRRegisters)
        } else if b == 0x2a {
            Some(MCUReportId::NFCState)
        } else if b == 0x3a {
            Some(MCUReportId::NFCReadData)
        } else if b == 0xff {
            Some(MCUReportId::EmptyAwaitingCmd)
        } else {
            None
        }
    }

    open spec fn spec_to_u8(self) -> u8 {
        match self {
            MCUReportId::Empty => 0x00,
            MCUReportId::StateReport => 0x01,
            MCUReportId::IRData => 0x03,
            MCUReportId::BusyInitializing => 0x0b,
            MCUReportId::IRStatus => 0x13,
            MCUReportId::IRRegisters => 0x1b,
            MCUReportId::NFCState => 0x2a,
            MCUReportId::NFCReadData => 0x3a,
            MCUReportId::EmptyAwaitingCmd => 0xff,
        }
    }

    fn from_u8(b: u8) -> (r: Option<Self>) {
        match b {
            0x00 => Some(MCUReportId::Empty),
            0x01 => Some(MCUReportId::StateReport),
            0x03 => Some(MCUReportId::IRData),
            0x0b => Some(MCUReportId::BusyInitializing),
            0x13 => Some(MCUReportId::IRStatus),
            0x1b => Some(MCUReportId::IRRegisters),
            0x2a => Some(MCUReportId::NFCState),
            0x3a => Some(MCUReportId::NFCReadData),
            0xff => Some(MCUReportId::EmptyAwaitingCmd),
            _ => None,
        }
    }

    fn to_u8(self) -> (r: u8) {
        match self {
            MCUReportId::Empty => 0x00,
            MCUReportId::StateReport => 0x01,
            MCUReportId::IRData => 0x03,
            MCUReportId::BusyInitializing => 0x0b,
            MCUReportId::IRStatus => 0x13,
            MCUReportId::IRRegisters => 0x1b,
            MCUReportId::NFCState => 0x2a,
            MCUReportId::NFCReadData => 0x3a,
            MCUReportId::EmptyAwaitingCmd => 0xff,
        }
    }

    proof fn lemma_to_from(self) {
    }

    proof fn lemma_from_to(b: u8) {
    }
}

/// Identifier of a command to the MCU.
#[derive(Copy, Clone, Debug, PartialEq, Eq, Structural)]
pub enum MCUCommandId {
    ConfigureMCU,
    ConfigureIR,
}

impl IdEnum for MCUCommandId {
    open spec fn spec_from_u8(b: u8) -> Option<Self> {
        if b == 0x21 {
            Some(MCUCommandId::ConfigureMCU)
        } else if b == 0x23 {
            Some(MCUCommandId::ConfigureIR)
        } else {
            None
        }
    }

    open spec fn spec_to_u8(self) -> u8 {
        match self {
            MCUCommandId::ConfigureMCU => 0x21,
            MCUCommandId::ConfigureIR => 0x23,
        }
    }

    fn from_u8(b: u8) -> (r: Option<Self>) {
        match b {
            0x21 => Some(MCUCommandId::ConfigureMCU),
            0x23 => Some(MCUCommandId::ConfigureIR),
            _ => None,
        }
    }

    fn to_u8(self) -> (r: u8) {
        match self {
            MCUCommandId::ConfigureMCU => 0x21,
            MCUCommandId::ConfigureIR => 0x23,
        }
    }

    proof fn lemma_to_from(self) {
    }

    proof fn lemma_from_to(b: u8) {
    }
}

/// Identifier of a subcommand to the MCU.
#[derive(Copy, Clone, Debug, PartialEq, Eq, Structural)]
pub enum MCUSubCommandId {
    SetMCUMode,
    SetIRMode,
    WriteIRRegisters,
}

impl IdEnum for MCUSubCommandId {
    open spec fn spec_from_u8(b: u8) -> Option<Self> {
        if b == 0 {
            Some(MCUSubCommandId::SetMCUMode)
        } else if b == 1 {
            Some(MCUSubCommandId::SetIRMode)
        } else if b == 4 {
            Some(MCUSubCommandId::WriteIRRegisters)
        } else {
            None
        }
    }

    open spec fn spec_to_u8(self) -> u8 {
        match self {
            MCUSubCommandId::SetMCUMode => 0,
            MCUSubCommandId::SetIRMode => 1,
            MCUSubCommandId::WriteIRRegisters => 4,
        }
    }

    fn from_u8(b: u8) -> (r: Option<Self>) {
        match b {
            0 => Some(MCUSubCommandId::SetMCUMode),
            1 => Some(MCUSubCommandId::SetIRMode),
            4 => Some(MCUSubCommandId::WriteIRRegisters),
            _ => None,
        }
    }

    fn to_u8(self) -> (r: u8) {
        match self {
            MCUSubCommandId::SetMCUMode => 0,
            MCUSubCommandId::SetIRMode => 1,
            MCUSubCommandId::WriteIRRegisters => 4,
        }
    }

    proof fn lemma_to_from(self) {
    }

    proof fn lemma_from_to(b: u8) {
    }
}

/// State of the MCU.
#[derive(Copy, Clone, Debug, PartialEq, Eq, Structural)]
pub enum MCUMode {
    Suspend,
    Standby,
    MaybeRingcon,
    NFC,
    IR,
    MaybeFWUpdate,
}

impl IdEnum for MCUMode {
    open spec fn spec_from_u8(b: u8) -> Option<Self> {
        if b == 0 {
            Some(MCUMode::Suspend)
        } else if b == 1 {
            Some(MCUMode::Standby)
        } else if b == 3 {
            Some(MCUMode::MaybeRingcon)
        } else if b == 4 {
            Some(MCUMode::NFC)
        } else if b == 5 {
            Some(MCUMode::IR)
        } else if b == 6 {
            Some(MCUMode::MaybeFWUpdate)
        } else {
            None
        }
    }

    open spec fn spec_to_u8(self) -> u8 {
        match self {
            MCUMode::Suspend => 0,
            MCUMode::Standby => 1,
            MCUMode::MaybeRingcon => 3,
            MCUMode::NFC => 4,
            MCUMode::IR => 5,
            MCUMode::MaybeFWUpdate => 6,
        }
    }

    fn from_u8(b: u8) -> (r: Option<Self>) {
        match b {
            0 => Some(MCUMode::Suspend),
            1 => Some(MCUMode::Standby),
            3 => Some(MCUMode::MaybeRingcon),
            4 => Some(MCUMode::NFC),
            5 => Some(MCUMode::IR),
            6 => Some(MCUMode::MaybeFWUpdate),
            _ => None,
        }
    }

    fn to_u8(self) -> (r: u8) {
        match self {
            MCUMode::Suspend => 0,
            MCUMode::Standby => 1,
            MCUMode::MaybeRingcon => 3,
            MCUMode::NFC => 4,
            MCUMode::IR => 5,
            MCUMode::MaybeFWUpdate => 6,
        }
    }

    proof fn lemma_to_from(self) {
    }

    proof fn lemma_from_to(b: u8) {
    }
}

/// Identifier of a request to the MCU.
#[derive(Copy, Clone, Debug, PartialEq, Eq, Structural)]
pub enum MCURequestId {
    GetMCUStatus,
    GetNFCData,
    GetIRData,
}

impl IdEnum for MCURequestId {
    open spec fn spec_from_u8(b: u8) -> Option<Self> {
        if b == 1 {
            Some(MCURequestId::GetMCUStatus)
        } else if b == 2 {
            Some(MCURequestId::GetNFCData)
        } else if b == 3 {
            Some(MCURequestId::GetIRData)
        } else {
            None
        }
    }

    open spec fn spec_to_u8(self) -> u8 {
        match self {
            MCURequestId::GetMCUStatus => 1,
            MCURequestId::GetNFCData => 2,
            MCURequestId::GetIRData => 3,
        }
    }

    fn from_u8(b: u8) -> (r: Option<Self>) {
        match b {
            1 => Some(MCURequestId::GetMCUStatus),
            2 => Some(MCURequestId::GetNFCData),
            3 => Some(MCURequestId::GetIRData),
            _ => None,
        }
    }

    fn to_u8(self) -> (r: u8) {
        match self {
            MCURequestId::GetMCUStatus => 1,
            MCURequestId::GetNFCData => 2,
            MCURequestId::GetIRData => 3,
        }
    }

    proof fn lemma_to_from(self) {
    }

    proof fn lemma_from_to(b: u8) {
    }
}

/// Power state requested from the MCU.
#[derive(Copy, Clone, Debug, PartialEq, Eq, Structural)]
pub enum MCUState {
    Suspend,
    Resume,
    ResumeForUpdate,
}

impl IdEnum for MCUState {
    open spec fn spec_from_u8(b: u8) -> Option<Self> {
        if b == 0 {
            Some(MCUState::Suspend)
        } else if b == 1 {
            Some(MCUState::Resume)
        } else if b == 2 {
            Some(MCUState::ResumeForUpdate)
        } else {
            None
        }
    }

    open spec fn spec_to_u8(self) -> u8 {
        match self {
            MCUState::Suspend => 0,
            MCUState::Resume => 1,
            MCUState::ResumeForUpdate => 2,
        }
    }

    fn from_u8(b: u8) -> (r: Option<Self>) {
        match b {
            0 => Some(MCUState::Suspend),
            1 => Some(MCUState::Resume),
            2 => Some(MCUState::ResumeForUpdate),
            _ => None,
        }
    }

    fn to_u8(self) -> (r: u8) {
        match self {
            MCUState::Suspend => 0,
            MCUState::Resume => 1,
            MCUState::ResumeForUpdate => 2,
        }
    }

    proof fn lemma_to_from(self) {
    }

    proof fn lemma_from_to(b: u8) {
    }
}

/// Identifier of a command to the MCU, as first named.
#[derive(Copy, Clone, Debug, PartialEq, Eq, Structural)]
pub enum MCUCmdId {
    SetMCUMode,
}

impl IdEnum for MCUCmdId {
    open spec fn spec_from_u8(b: u8) -> Option<Self> {
        if b == 0x21 {
            Some(MCUCmdId::SetMCUMode)
        } else {
            None
        }
    }

    open spec fn spec_to_u8(self) -> u8 {
        match self {
            MCUCmdId::SetMCUMode => 0x21,
        }
    }

    fn from_u8(b: u8) -> (r: Option<Self>) {
        match b {
            0x21 => Some(MCUCmdId::SetMCUMode),
            _ => None,
        }
    }

    fn to_u8(self) -> (r: u8) {
        match self {
            MCUCmdId::SetMCUMode => 0x21,
        }
    }

    proof fn lemma_to_from(self) {
    }

    proof fn lemma_from_to(b: u8) {
    }
}

/// Identifier of a subcommand to the MCU, as first named.
#[derive(Copy, Clone, Debug, PartialEq, Eq, Structural)]
pub enum MCUSubCmdId {
    SetMCUMode,
}

impl IdEnum for MCUSubCmdId {
    open spec fn spec_from_u8(b: u8) -> Option<Self> {
        if b == 0 {
            Some(MCUSubCmdId::SetMCUMode)
        } else {
            None
        }
    }

    open spec fn spec_to_u8(self) -> u8 {
        match self {
            MCUSubCmdId::SetMCUMode => 0,
        }
    }

    fn from_u8(b: u8) -> (r: Option<Self>) {
        match b {
            0 => Some(MCUSubCmdId::SetMCUMode),
            _ => None,
        }
    }

    fn to_u8(self) -> (r: u8) {
        match self {
            MCUSubCmdId::SetMCUMode => 0,
        }
    }

    proof fn lemma_to_from(self) {
    }

    proof fn lemma_from_to(b: u8) {
    }
}

/// `payload` padded with zeros to 35 bytes, followed by the CRC-8 of `id` and
/// these 35 bytes.
pub open spec fn with_crc(id: u8, payload: Seq<u8>) -> Seq<u8> {
    padded(payload, 35).push(crc8(id, padded(payload, 35)))
}

/// `payload` padded with zeros to 35 bytes.
fn pad35(payload: &[u8]) -> (r: [u8; 35])
    requires
        payload@.len() <= 35,
    ensures
        r@ == padded(payload@, 35),
{
    let mut r = [0u8; 35];
    let mut i: usize = 0;
    while i < payload.len()
        invariant
            i <= payload@.len() <= 35,
            r@.len() == 35,
            forall|j: int| 0 <= j < i ==> r@[j] == payload@[j],
            forall|j: int| i <= j < 35 ==> r@[j] == 0,
        decreases payload@.len() - i,
    {
        r[i] = payload[i];
        i += 1;
    }
    assert(r@ =~= padded(payload@, 35));
    r
}

/// The bytes of a command: its ids, then `payload` padded and followed by
/// its CRC.
pub open spec fn mcu_command_bytes(cmd_id: MCUCommandId, subcmd_id: MCUSubCommandId, payload: Seq<u8>) -> Seq<u8> {
    seq![cmd_id.spec_to_u8(), subcmd_id.spec_to_u8()] + with_crc(subcmd_id.spec_to_u8(), payload)
}

/// Thirty-five bytes followed by their CRC, as the MCU expects it.
#[derive(Copy, Clone, Debug)]
pub struct MCUCommandCRC {
    pub bytes: [u8; 35],
    pub crc: u8,
}

impl MCUCommandCRC {
    /// Stores the CRC-8 of the subcommand id and the bytes.
    pub fn compute_crc8(&mut self, subcmd_id: MCUSubCommandId)
        ensures
            final(self).bytes == old(self).bytes,
            final(self).crc == crc8(subcmd_id.spec_to_u8(), old(self).bytes@),
    {
        // The subcommand id is kept outside the byte buffer.
        self.crc = compute_crc8(subcmd_id.to_u8(), &self.bytes);
    }
}

/// A command to the MCU: command id, subcommand id, then 36 bytes of
/// arguments whose last is their CRC.
#[derive(Copy, Clone, Debug)]
pub struct MCUCommand {
    pub cmd_id: MCUCommandId,
    pub subcmd_id: MCUSubCommandId,
    pub u: [u8; 36],
}

impl MCUCommand {
    /// The 38 bytes of the command on the wire.
    pub open spec fn spec_bytes(self) -> Seq<u8> {
        seq![self.cmd_id.spec_to_u8(), self.subcmd_id.spec_to_u8()] + self.u@
    }

    /// The command with these ids and `payload`, its CRC computed.
    pub open spec fn of(cmd_id: MCUCommandId, subcmd_id: MCUSubCommandId, payload: Seq<u8>) -> MCUCommand {
        MCUCommand { cmd_id, subcmd_id, u: array36(with_crc(subcmd_id.spec_to_u8(), payload)) }
    }

    /// The 38 bytes of the command on the wire.
    pub fn bytes(&self) -> (r: [u8; 38])
        ensures
            r@ == self.spec_bytes(),
    {
        let mut r = [0u8; 38];
        r[0] = self.cmd_id.to_u8();
        r[1] = self.subcmd_id.to_u8();
        let mut i: usize = 0;
        while i < 36
            invariant
                i <= 36,
                r@.len() == 38,
                forall|j: int| 0 <= j < 2 ==> r@[j] == self.spec_bytes()[j],
                forall|j: int| 2 <= j < 2 + i ==> r@[j] == self.spec_bytes()[j],
            decreases 36 - i,
        {
            r[2 + i] = self.u[i];
            i += 1;
        }
        assert(r@ =~= self.spec_bytes());
        r
    }

    /// The command with these ids and arguments, its CRC computed.
    fn build(cmd_id: MCUCommandId, subcmd_id: MCUSubCommandId, payload: &[u8]) -> (r: MCUCommand)
        requires
            payload@.len() <= 35,
        ensures
            r == MCUCommand::of(cmd_id, subcmd_id, payload@),
            r.u@ == with_crc(subcmd_id.spec_to_u8(), payload@),
    {
        let body = pad35(payload);
        let mut crc = MCUCommandCRC { bytes: body, crc: 0 };
        crc.compute_crc8(subcmd_id);
        let mut u = [0u8; 36];
        let mut i: usize = 0;
        while i < 35
            invariant
                i <= 35,
                u@.len() == 36,
                forall|j: int| 0 <= j < i ==> u@[j] == body@[j],
            decreases 35 - i,
        {
            u[i] = body[i];
            i += 1;
        }
        u[35] = crc.crc;
        assert(u@ =~= with_crc(subcmd_id.spec_to_u8(), payload@));
        assert(u =~= array36(with_crc(subcmd_id.spec_to_u8(), payload@)));
        MCUCommand { cmd_id, subcmd_id, u }
    }

    /// Asks the MCU to switch to `mode`.
    pub fn set_mcu_mode(mode: MCUMode) -> (r: Self)
        ensures
            r == MCUCommand::of(MCUCommandId::ConfigureMCU, MCUSubCommandId::SetMCUMode, seq![mode.spec_to_u8()]),
            r.cmd_id == MCUCommandId::ConfigureMCU,
            r.subcmd_id == MCUSubCommandId::SetMCUMode,
            r.u@ == with_crc(0, seq![mode.spec_to_u8()]),
    {
        let payload = [mode.to_u8()];
        assert(payload@ =~= seq![mode.spec_to_u8()]);
        MCUCommand::build(MCUCommandId::ConfigureMCU, MCUSubCommandId::SetMCUMode, &payload)
    }

    /// Configures the IR mode, as a command to the MCU.
    pub fn configure_mcu_ir(conf: MCUIRModeData) -> (r: Self)
        ensures
            r == MCUCommand::of(MCUCommandId::ConfigureMCU, MCUSubCommandId::SetIRMode, conf.spec_bytes()),
            r.cmd_id == MCUCommandId::ConfigureMCU,
            r.subcmd_id == MCUSubCommandId::SetIRMode,
            r.u@ == with_crc(1, conf.spec_bytes()),
    {
        let payload = conf.bytes();
        MCUCommand::build(MCUCommandId::ConfigureMCU, MCUSubCommandId::SetIRMode, &payload)
    }

    /// Configures the IR mode, as a command to the camera.
    pub fn configure_ir_ir(conf: MCUIRModeData) -> (r: Self)
        ensures
            r == MCUCommand::of(MCUCommandId::ConfigureIR, MCUSubCommandId::SetIRMode, conf.spec_bytes()),
            r.cmd_id == MCUCommandId::ConfigureIR,
            r.subcmd_id == MCUSubCommandId::SetIRMode,
            r.u@ == with_crc(1, conf.spec_bytes()),
    {
        let payload = conf.bytes();
        MCUCommand::build(MCUCommandId::ConfigureIR, MCUSubCommandId::SetIRMode, &payload)
    }

    /// Writes registers of the camera.
    pub fn set_ir_registers(regs: MCURegisters) -> (r: Self)
        ensures
            r == MCUCommand::of(MCUCommandId::ConfigureIR, MCUSubCommandId::WriteIRRegisters, regs.spec_bytes()),
            r.cmd_id == MCUCommandId::ConfigureIR,
            r.subcmd_id == MCUSubCommandId::WriteIRRegisters,
            r.u@ == with_crc(4, regs.spec_bytes()),
    {
        let payload = regs.bytes();
        MCUCommand::build(MCUCommandId::ConfigureIR, MCUSubCommandId::WriteIRRegisters, &payload)
    }
}

/// Thirty-six bytes, their CRC and a trailing byte, as the MCU expects it.
#[derive(Copy, Clone, Debug)]
pub struct MCURequestCRC {
    pub bytes: [u8; 36],
    pub crc: u8,
    pub _padding_0xff: u8,
}

impl MCURequestCRC {
    /// Stores the CRC-8 of the bytes, and the trailing byte that the request
    /// `id` needs.
    pub fn compute_crc8(&mut self, id: IRRequestId)
        ensures
            final(self).bytes == old(self).bytes,
            final(self).crc == crc8(0, old(self).bytes@),
            final(self)._padding_0xff == ir_request_padding(id),
    {
        self.crc = compute_crc8(0, &self.bytes);
        self._padding_0xff = match id {
            IRRequestId::GetSensorData | IRRequestId::GetState => 0xff,
            IRRequestId::ReadRegister => 0x00,
        };
    }
}

/// The byte that ends a request to the IR camera.
pub open spec fn ir_request_padding(id: IRRequestId) -> u8 {
    match id {
        IRRequestId::GetSensorData | IRRequestId::GetState => 0xff,
        IRRequestId::ReadRegister => 0x00,
    }
}

/// A request to the MCU: its id, then 38 bytes of arguments.
#[derive(Copy, Clone, Debug)]
pub struct MCURequest {
    pub id: MCURequestId,
    pub u: [u8; 38],
}

impl MCURequest {
    /// The 39 bytes of the request on the wire.
    pub open spec fn spec_bytes(self) -> Seq<u8> {
        seq![self.id.spec_to_u8()] + self.u@
    }

    /// The 39 bytes of the request on the wire.
    pub fn bytes(&self) -> (r: [u8; 39])
        ensures
            r@ == self.spec_bytes(),
    {
        let mut r = [0u8; 39];
        r[0] = self.id.to_u8();
        let mut i: usize = 0;
        while i < 38
            invariant
                i <= 38,
                r@.len() == 39,
                forall|j: int| 0 <= j < 1 + i ==> r@[j] == self.spec_bytes()[j],
            decreases 38 - i,
        {
            r[1 + i] = self.u[i];
            i += 1;
        }
        assert(r@ =~= self.spec_bytes());
        r
    }

    /// The request for the status of the MCU.
    pub open spec fn status() -> MCURequest {
        MCURequest { id: MCURequestId::GetMCUStatus, u: array38(zeros(38)) }
    }

    /// The request forwarding `ir_request` to the IR camera.
    pub open spec fn ir(ir_request: IRRequest) -> MCURequest {
        MCURequest { id: MCURequestId::GetIRData, u: array38(MCURequest::ir_request_bytes(ir_request)) }
    }

    /// The arguments of a request to the IR camera: the request padded to 36
    /// bytes, their CRC and the trailing byte.
    pub open spec fn ir_request_bytes(ir_request: IRRequest) -> Seq<u8> {
        padded(ir_request.spec_bytes(), 36).push(crc8(0, padded(ir_request.spec_bytes(), 36))).push(
            ir_request_padding(ir_request.id),
        )
    }

    pub fn id(&self) -> (r: MCURequestId)
        ensures
            r == self.id,
    {
        self.id
    }

    /// Asks for the status of the MCU; it carries no CRC.
    pub fn get_mcu_status() -> (r: Self)
        ensures
            r == MCURequest::status(),
            r.u@ == zeros(38),
    {
        let r = MCURequest { id: MCURequestId::GetMCUStatus, u: [0; 38] };
        assert(r.u@ =~= zeros(38));
        assert(r.u =~= array38(zeros(38)));
        r
    }

    /// Forwards a request to the IR camera.
    pub fn from_ir_request(ir_request: IRRequest) -> (r: Self)
        ensures
            r == MCURequest::ir(ir_request),
            r.u@ == MCURequest::ir_request_bytes(ir_request),
    {
        let mut bytes = [0u8; 36];
        bytes[0] = ir_request.id.to_u8();
        bytes[1] = ir_request.u[0];
        bytes[2] = ir_request.u[1];
        bytes[3] = ir_request.u[2];
        bytes[4] = ir_request.u[3];
        assert(bytes@ =~= padded(ir_request.spec_bytes(), 36));
        let mut crc = MCURequestCRC { bytes, crc: 0, _padding_0xff: 0 };
        crc.compute_crc8(ir_request.id());
        let mut u = [0u8; 38];
        let mut i: usize = 0;
        while i < 36
            invariant
                i <= 36,
                u@.len() == 38,
                forall|j: int| 0 <= j < i ==> u@[j] == bytes@[j],
            decreases 36 - i,
        {
            u[i] = bytes[i];
            i += 1;
        }
        u[36] = crc.crc;
        u[37] = crc._padding_0xff;
        assert(u@ =~= MCURequest::ir_request_bytes(ir_request));
        assert(u =~= array38(MCURequest::ir_request_bytes(ir_request)));
        MCURequest { id: MCURequestId::GetIRData, u }
    }
}

impl From<IRRequest> for MCURequest {
    fn from(ir_request: IRRequest) -> (r: Self) {
        MCURequest::from_ir_request(ir_request)
    }
}

impl FromSpecImpl<IRRequest> for MCURequest {
    open spec fn obeys_from_spec() -> bool {
        true
    }

    open spec fn from_spec(ir_request: IRRequest) -> MCURequest {
        MCURequest::ir(ir_request)
    }
}

/// The status of the MCU.
#[derive(Copy, Clone, Debug)]
pub struct MCUStatus {
    pub _unknown: [u8; 2],
    pub fw_major_version: U16LE,
    pub fw_minor_version: U16LE,
    pub state: RawId<MCUMode>,
}

impl MCUStatus {
    /// The status in the first seven bytes of `s`.
    pub open spec fn parse(s: Seq<u8>) -> MCUStatus {
        MCUStatus {
            _unknown: [s[0], s[1]],
            fw_major_version: U16LE([s[2], s[3]]),
            fw_minor_version: U16LE([s[4], s[5]]),
            state: RawId(s[6], core::marker::PhantomData),
        }
    }
}

/// The state of the IR camera in the first six bytes of `s`.
pub open spec fn parse_ir_status(s: Seq<u8>) -> IRStatus {
    IRStatus {
        _unknown_0x00: s[0],
        ir_mode: RawId(s[1], core::marker::PhantomData),
        required_fw_major_version: U16LE([s[2], s[3]]),
        required_fw_minor_version: U16LE([s[4], s[5]]),
    }
}

/// A report of the MCU: its id, then 312 bytes whose meaning depends on it.
#[derive(Copy, Clone, Debug)]
pub struct MCUReport {
    pub id: RawId<MCUReportId>,
    pub u: [u8; 312],
}

impl MCUReport {
    /// Whether the id of the report is known; a report with an unknown id
    /// is kept, and its first bytes are worth showing.
    pub fn validate(&self) -> (r: bool)
        ensures
            r == (self.id.spec_try_into() is Some),
    {
        self.id.try_into().is_some()
    }

    /// The status of the MCU, for a state report.
    pub fn as_status(&self) -> (r: Option<MCUStatus>)
        ensures
            r == (if self.id.spec_try_into() == Some(MCUReportId::StateReport) {
                Some(MCUStatus::parse(self.u@))
            } else {
                None
            }),
    {
        if self.id.is(MCUReportId::StateReport) {
            Some(
                MCUStatus {
                    _unknown: [self.u[0], self.u[1]],
                    fw_major_version: U16LE([self.u[2], self.u[3]]),
                    fw_minor_version: U16LE([self.u[4], self.u[5]]),
                    state: RawId::from_raw(self.u[6]),
                },
            )
        } else {
            None
        }
    }

    /// Whether the MCU is still starting.
    pub fn is_busy_init(&self) -> (r: bool)
        ensures
            r == (self.id.spec_try_into() == Some(MCUReportId::BusyInitializing)),
    {
        self.id.is(MCUReportId::BusyInitializing)
    }

    /// The state of the camera, for an IR status report.
    pub fn as_ir_status(&self) -> (r: Option<IRStatus>)
        ensures
            r == (if self.id.spec_try_into() == Some(MCUReportId::IRStatus) {
                Some(parse_ir_status(self.u@))
            } else {
                None
            }),
    {
        if self.id.is(MCUReportId::IRStatus) {
            Some(
                IRStatus {
                    _unknown_0x00: self.u[0],
                    ir_mode: RawId::from_raw(self.u[1]),
                    required_fw_major_version: U16LE([self.u[2], self.u[3]]),
                    required_fw_minor_version: U16LE([self.u[4], self.u[5]]),
                },
            )
        } else {
            None
        }
    }

    /// A fragment of an image, for an IR data report.
    pub fn as_ir_data(&self) -> (r: Option<IRData>)
        ensures
            r is Some <==> self.id.spec_try_into() == Some(MCUReportId::IRData),
            r matches Some(d) ==> {
                &&& d._unknown@ == self.u@.subrange(0, 2)
                &&& d.frag_number == self.u@[2]
                &&& d.average_intensity == self.u@[3]
                &&& d._unknown3 == self.u@[4]
                &&& d.white_pixel_count == U16LE([self.u@[5], self.u@[6]])
                &&& d.ambient_noise_count == U16LE([self.u@[7], self.u@[8]])
                &&& d.img_fragment@ == self.u@.subrange(9, 309)
            },
    {
        if self.id.is(MCUReportId::IRData) {
            let unknown: [u8; 2] = sub_array(&self.u, 0);
            let img_fragment: [u8; 300] = sub_array(&self.u, 9);
            Some(
                IRData {
                    _unknown: unknown,
                    frag_number: self.u[2],
                    average_intensity: self.u[3],
                    _unknown3: self.u[4],
                    white_pixel_count: U16LE([self.u[5], self.u[6]]),
                    ambient_noise_count: U16LE([self.u[7], self.u[8]]),
                    img_fragment,
                },
            )
        } else {
            None
        }
    }

    /// Registers of the camera, for an IR registers report.
    pub fn as_ir_registers(&self) -> (r: Option<IRRegistersSlice>)
        ensures
            r is Some <==> self.id.spec_try_into() == Some(MCUReportId::IRRegisters),
            r matches Some(d) ==> {
                &&& d._unknown_0x00 == self.u@[0]
                &&& d.page == self.u@[1]
                &&& d.offset == self.u@[2]
                &&& d.nb_registers == self.u@[3]
                &&& d.values@ == self.u@.subrange(4, 131)
            },
    {
        if self.id.is(MCUReportId::IRRegisters) {
            let values: [u8; 0x7f] = sub_array(&self.u, 4);
            Some(
                IRRegistersSlice {
                    _unknown_0x00: self.u[0],
                    page: self.u[1],
                    offset: self.u[2],
                    nb_registers: self.u[3],
                    values,
                },
            )
        } else {
            None
        }
    }
}

} // verus!
