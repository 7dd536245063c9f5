//! Requests to and replies from the IR camera, through the MCU.
use crate::common::{Bool, IdEnum, RawId, U16LE};
use crate::mcu::{MCUCommandId, MCUMode, MCUSubCommandId};
use crate::mcu::ir_register::Register;
use vstd::prelude::*;
use vstd::std_specs::convert::FromSpecImpl;

verus! {

/// A request to the IR camera: its id, then up to four bytes of arguments.
#[derive(Copy, Clone, Debug)]
pub struct IRRequest {
    pub id: IRRequestId,
    pub u: [u8; 4],
}

impl IRRequest {
    /// The five bytes of the request on the wire.
    pub open spec fn spec_bytes(self) -> Seq<u8> {
        seq![self.id.spec_to_u8()] + self.u@
    }

    pub fn id(&self) -> (r: IRRequestId)
        ensures
            r == self.id,
    {
        self.id
    }

    /// The request for the state of the camera.
    pub open spec fn state_request() -> IRRequest {
        IRRequest { id: IRRequestId::GetState, u: [0u8, 0, 0, 0] }
    }

    /// Asks for the state of the camera.
    pub fn get_state() -> (r: IRRequest)
        ensures
            r == IRRequest::state_request(),
            r.u@ == seq![0u8, 0, 0, 0],
    {
        let r = IRRequest { id: IRRequestId::GetState, u: [0; 4] };
        assert(r.u@ =~= seq![0u8, 0, 0, 0]);
        assert(r.u =~= [0u8, 0, 0, 0]);
        r
    }
}

impl From<IRAckRequestPacket> for IRRequest {
    fn from(ack_request_packet: IRAckRequestPacket) -> (r: Self) {
        let r = IRRequest {
            id: IRRequestId::GetSensorData,
            u: [
                ack_request_packet.packet_missing.0,
                ack_request_packet.missed_packet_id,
                ack_request_packet.ack_packet_id,
                0,
            ],
        };
        assert(r.u@ =~= ack_request_packet.spec_bytes().push(0));
        r
    }
}

impl FromSpecImpl<IRAckRequestPacket> for IRRequest {
    open spec fn obeys_from_spec() -> bool {
        true
    }

    open spec fn from_spec(p: IRAckRequestPacket) -> IRRequest {
        IRRequest {
            id: IRRequestId::GetSensorData,
            u: [p.packet_missing.0, p.missed_packet_id, p.ack_packet_id, 0],
        }
    }
}

impl From<IRReadRegisters> for IRRequest {
    fn from(read_registers: IRReadRegisters) -> (r: Self) {
        IRRequest {
            id: IRRequestId::ReadRegister,
            u: [
                read_registers.unknown_0x01,
                read_registers.page,
                read_registers.offset,
                read_registers.nb_registers,
            ],
        }
    }
}

impl FromSpecImpl<IRReadRegisters> for IRRequest {
    open spec fn obeys_from_spec() -> bool {
        true
    }

    open spec fn from_spec(p: IRReadRegisters) -> IRRequest {
        IRRequest {
            id: IRRequestId::ReadRegister,
            u: [p.unknown_0x01, p.page, p.offset, p.nb_registers],
        }
    }
}

/// Acknowledges a fragment of an image, or asks for a missed one.
#[derive(Copy, Clone, Debug)]
pub struct IRAckRequestPacket {
    pub packet_missing: RawId<Bool>,
    pub missed_packet_id: u8,
    pub ack_packet_id: u8,
}

impl IRAckRequestPacket {
    pub open spec fn spec_bytes(self) -> Seq<u8> {
        seq![self.packet_missing.0, self.missed_packet_id, self.ack_packet_id]
    }
}

/// Asks for `nb_registers` registers from `offset` of `page`.
#[derive(Copy, Clone, Debug)]
pub struct IRReadRegisters {
    pub unknown_0x01: u8,
    pub page: u8,
    pub offset: u8,
    pub nb_registers: u8,
}

/// A mode of the camera with the number of fragments per image and the
/// firmware version of the MCU.
#[derive(Copy, Clone, Debug)]
pub struct MCUIRModeData {
    pub ir_mode: RawId<MCUIRMode>,
    /// Set number of packets to output per buffer
    pub no_of_frags: u8,
    /// Get it from MCUStatus
    pub mcu_fw_version: (U16LE, U16LE),
}

impl MCUIRModeData {
    /// The six bytes on the wire.
    pub fn bytes(&self) -> (r: [u8; 6])
        ensures
            r@ == self.spec_bytes(),
    {
        let r = [
            self.ir_mode.0,
            self.no_of_frags,
            self.mcu_fw_version.0.0[0],
            self.mcu_fw_version.0.0[1],
            self.mcu_fw_version.1.0[0],
            self.mcu_fw_version.1.0[1],
        ];
        assert(r@ =~= self.spec_bytes());
        r
    }

    /// The six bytes on the wire.
    pub open spec fn spec_bytes(self) -> Seq<u8> {
        seq![
            self.ir_mode.0,
            self.no_of_frags,
            self.mcu_fw_version.0.0[0],
            self.mcu_fw_version.0.0[1],
            self.mcu_fw_version.1.0[0],
            self.mcu_fw_version.1.0[1],
        ]
    }
}

/// The state of the camera.
#[derive(Copy, Clone, Debug)]
pub struct IRStatus {
    pub _unknown_0x00: u8,
    pub ir_mode: RawId<MCUIRMode>,
    pub required_fw_major_version: U16LE,
    pub required_fw_minor_version: U16LE,
}

/// Registers read from the camera.
#[derive(Copy, Clone, Debug)]
pub struct IRRegistersSlice {
    pub _unknown_0x00: u8,
    pub page: u8,
    pub offset: u8,
    pub nb_registers: u8,
    pub values: [u8; 0x7f],
}

/// A fragment of an image of the camera.
#[derive(Copy, Clone, Debug)]
pub struct IRData {
    pub _unknown: [u8; 2],
    pub frag_number: u8,
    pub average_intensity: u8,
    /// Only when EXFilter enabled
    pub _unknown3: u8,
    pub white_pixel_count: U16LE,
    pub ambient_noise_count: U16LE,
    pub img_fragment: [u8; 300],
}

/// Up to nine register writes; `len` of them are used.
#[derive(Copy, Clone, Debug)]
pub struct MCURegisters {
    pub len: u8,
    pub regs: [Register; 9],
}

impl MCURegisters {
    /// The 28 bytes on the wire.
    pub fn bytes(&self) -> (r: [u8; 28])
        ensures
            r@ == self.spec_bytes(),
    {
        let mut r = [0u8; 28];
        r[0] = self.len;
        let mut k: usize = 0;
        while k < 9
            invariant
                k <= 9,
                r@.len() == 28,
                r@[0] == self.len,
                forall|i: int, j: int|
                    0 <= i < k && 0 <= j < 3 ==> r@[1 + 3 * i + j] == #[trigger] self.regs[i].spec_bytes()[j],
            decreases 9 - k,
        {
            let reg = self.regs[k];
            r[1 + 3 * k] = reg.address.0[0];
            r[2 + 3 * k] = reg.address.0[1];
            r[3 + 3 * k] = reg.value;
            k += 1;
        }
        assert(r@ =~= self.spec_bytes());
        r
    }

    /// The 28 bytes on the wire: the count, then each register.
    pub open spec fn spec_bytes(self) -> Seq<u8> {
        seq![self.len] + self.regs[0].spec_bytes() + self.regs[1].spec_bytes()
            + self.regs[2].spec_bytes() + self.regs[3].spec_bytes() + self.regs[4].spec_bytes()
            + self.regs[5].spec_bytes() + self.regs[6].spec_bytes() + self.regs[7].spec_bytes()
            + self.regs[8].spec_bytes()
    }
}

/// A command setting the mode of the MCU.
#[derive(Copy, Clone, Debug)]
pub struct MCUSetReg {
    pub cmd_id: MCUCommandId,
    pub subcmd_id: MCUSubCommandId,
    pub mode: RawId<MCUMode>,
}

/// Identifier of a request to the IR camera.
#[derive(Copy, Clone, Debug, PartialEq, Eq, Structural)]
pub enum IRRequestId {
    GetSensorData,
    GetState,
    ReadRegister,
}

impl IdEnum for IRRequestId {
    open spec fn spec_from_u8(b: u8) -> Option<Self> {
        if b == 0 {
            Some(IRRequestId::GetSensorData)
        } else if b == 2 {
            Some(IRRequestId::GetState)
        } else if b == 3 {
            Some(IRRequestId::ReadRegister)
        } else {
            None
        }
    }

    open spec fn spec_to_u8(self) -> u8 {
        match self {
            IRRequestId::GetSensorData => 0,
            IRRequestId::GetState => 2,
            IRRequestId::ReadRegister => 3,
        }
    }

    fn from_u8(b: u8) -> (r: Option<Self>) {
        match b {
            0 => Some(IRRequestId::GetSensorData),
            2 => Some(IRRequestId::GetState),
            3 => Some(IRRequestId::ReadRegister),
            _ => None,
        }
    }

    fn to_u8(self) -> (r: u8) {
        match self {
            IRRequestId::GetSensorData => 0,
            IRRequestId::GetState => 2,
            IRRequestId::ReadRegister => 3,
        }
    }

    proof fn lemma_to_from(self) {
    }

    proof fn lemma_from_to(b: u8) {
    }
}

/// Mode of the IR camera.
#[derive(Copy, Clone, Debug, PartialEq, Eq, Structural)]
pub enum MCUIRMode {
    IRSensorReset,
    IRSensorSleep,
    WaitingForConfigurationMaybe,
    Moment,
    /// Wii-style pointing
    Dpd,
    Unknown5,
    Clustering,
    ImageTransfer,
    HandAnalysisSilhouette,
    HandAnalysisImage,
    HandAnalysisSilhouetteImage,
    Unknown11,
    /// Used in ringfit for pulse rate detection
    PulseRate,
}

impl IdEnum for MCUIRMode {
    open spec fn spec_from_u8(b: u8) -> Option<Self> {
        if b == 0 {
            Some(MCUIRMode::IRSensorReset)
        } else if b == 1 {
            Some(MCUIRMode::IRSensorSleep)
        } else if b == 2 {
            Some(MCUIRMode::WaitingForConfigurationMaybe)
        } else if b == 3 {
            Some(MCUIRMode::Moment)
        } else if b == 4 {
            Some(MCUIRMode::Dpd)
        } else if b == 5 {
            Some(MCUIRMode::Unknown5)
        } else if b == 6 {
            Some(MCUIRMode::Clustering)
        } else if b == 7 {
            Some(MCUIRMode::ImageTransfer)
        } else if b == 8 {
            Some(MCUIRMode::HandAnalysisSilhouette)
        } else if b == 9 {
            Some(MCUIRMode::HandAnalysisImage)
        } else if b == 10 {
            Some(MCUIRMode::HandAnalysisSilhouetteImage)
        } else if b == 11 {
            Some(MCUIRMode::Unknown11)
        } else if b == 0xd {
            Some(MCUIRMode::PulseRate)
        } else {
            None
        }
    }

    open spec fn spec_to_u8(self) -> u8 {
        match self {
            MCUIRMode::IRSensorReset => 0,
            MCUIRMode::IRSensorSleep => 1,
            MCUIRMode::WaitingForConfigurationMaybe => 2,
            MCUIRMode::Moment => 3,
            MCUIRMode::Dpd => 4,
            MCUIRMode::Unknown5 => 5,
            MCUIRMode::Clustering => 6,
            MCUIRMode::ImageTransfer => 7,
            MCUIRMode::HandAnalysisSilhouette => 8,
            MCUIRMode::HandAnalysisImage => 9,
            MCUIRMode::HandAnalysisSilhouetteImage => 10,
            MCUIRMode::Unknown11 => 11,
            MCUIRMode::PulseRate => 0xd,
        }
    }

    fn from_u8(b: u8) -> (r: Option<Self>) {
        match b {
            0 => Some(MCUIRMode::IRSensorReset),
            1 => Some(MCUIRMode::IRSensorSleep),
            2 => Some(MCUIRMode::WaitingForConfigurationMaybe),
            3 => Some(MCUIRMode::Moment),
            4 => Some(MCUIRMode::Dpd),
            5 => Some(MCUIRMode::Unknown5),
            6 => Some(MCUIRMode::Clustering),
            7 => Some(MCUIRMode::ImageTransfer),
            8 => Some(MCUIRMode::HandAnalysisSilhouette),
            9 => Some(MCUIRMode::HandAnalysisImage),
            10 => Some(MCUIRMode::HandAnalysisSilhouetteImage),
            11 => Some(MCUIRMode::Unknown11),
            0xd => Some(MCUIRMode::PulseRate),
            _ => None,
        }
    }

    fn to_u8(self) -> (r: u8) {
        match self {
            MCUIRMode::IRSensorReset => 0,
            MCUIRMode::IRSensorSleep => 1,
            MCUIRMode::WaitingForConfigurationMaybe => 2,
            MCUIRMode::Moment => 3,
            MCUIRMode::Dpd => 4,
            MCUIRMode::Unknown5 => 5,
            MCUIRMode::Clustering => 6,
            MCUIRMode::ImageTransfer => 7,
            MCUIRMode::HandAnalysisSilhouette => 8,
            MCUIRMode::HandAnalysisImage => 9,
            MCUIRMode::HandAnalysisSilhouetteImage => 10,
            MCUIRMode::Unknown11 => 11,
            MCUIRMode::PulseRate => 0xd,
        }
    }

    proof fn lemma_to_from(self) {
    }

    proof fn lemma_from_to(b: u8) {
    }
}

} // verus!
