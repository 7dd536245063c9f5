//! Output reports sent to the controller.
use crate::accessory::AccessoryCommand;
use crate::bytes::{array38, array48, pad38, padded};
use crate::common::{Bool, IdEnum, InputReportId, RawId, SubcommandId};
use crate::imu::{IMUMode, Sensitivity};
use crate::light::{HomeLight, PlayerLights};
use crate::mcu::ir::{IRAckRequestPacket, IRRequest, MCURegisters};
use crate::mcu::ir_register::Register;
use crate::mcu::{mcu_command_bytes, MCUCommand, MCUCommandId, MCUMode, MCURequest, MCUSubCommandId};
use crate::mcu::ir::IRRequestId;
use crate::spi::{SPIReadRequest, SPIWriteRequest};
use vstd::prelude::*;
use vstd::std_specs::convert::FromSpecImpl;

verus! {

/// A subcommand with its arguments.
#[derive(Copy, Clone, Debug)]
pub enum SubcommandRequestEnum {
    GetOnlyControllerState(()),
    BluetoothManualPairing(()),
    RequestDeviceInfo(()),
    SetInputReportMode(RawId<InputReportId>),
    GetTriggerButtonsElapsedTime(()),
    SetShipmentMode(RawId<Bool>),
    SPIRead(SPIReadRequest),
    SPIWrite(SPIWriteRequest),
    SetMCUConf(MCUCommand),
    SetMCUState(RawId<MCUMode>),
    SetUnknownData([u8; 38]),
    SetPlayerLights(PlayerLights),
    SetHomeLight(HomeLight),
    SetIMUMode(RawId<IMUMode>),
    SetIMUSens(Sensitivity),
    EnableVibration(RawId<Bool>),
    MaybeAccessory(AccessoryCommand),
    Unknown0x59(()),
    Unknown0x5a([u8; 38]),
    Unknown0x5b(()),
    Unknown0x5c([u8; 38]),
}

impl SubcommandRequestEnum {
    pub open spec fn spec_id(self) -> SubcommandId {
        match self {
            SubcommandRequestEnum::GetOnlyControllerState(_) => SubcommandId::GetOnlyControllerState,
            SubcommandRequestEnum::BluetoothManualPairing(_) => SubcommandId::BluetoothManualPairing,
            SubcommandRequestEnum::RequestDeviceInfo(_) => SubcommandId::RequestDeviceInfo,
            SubcommandRequestEnum::SetInputReportMode(_) => SubcommandId::SetInputReportMode,
            SubcommandRequestEnum::GetTriggerButtonsElapsedTime(_) => SubcommandId::GetTriggerButtonsElapsedTime,
            SubcommandRequestEnum::SetShipmentMode(_) => SubcommandId::SetShipmentMode,
            SubcommandRequestEnum::SPIRead(_) => SubcommandId::SPIRead,
            SubcommandRequestEnum::SPIWrite(_) => SubcommandId::SPIWrite,
            SubcommandRequestEnum::SetMCUConf(_) => SubcommandId::SetMCUConf,
            SubcommandRequestEnum::SetMCUState(_) => SubcommandId::SetMCUState,
            SubcommandRequestEnum::SetUnknownData(_) => SubcommandId::SetUnknownData,
            SubcommandRequestEnum::SetPlayerLights(_) => SubcommandId::SetPlayerLights,
            SubcommandRequestEnum::SetHomeLight(_) => SubcommandId::SetHomeLight,
            SubcommandRequestEnum::SetIMUMode(_) => SubcommandId::SetIMUMode,
            SubcommandRequestEnum::SetIMUSens(_) => SubcommandId::SetIMUSens,
            SubcommandRequestEnum::EnableVibration(_) => SubcommandId::EnableVibration,
            SubcommandRequestEnum::MaybeAccessory(_) => SubcommandId::MaybeAccessory,
            SubcommandRequestEnum::Unknown0x59(_) => SubcommandId::Unknown0x59,
            SubcommandRequestEnum::Unknown0x5a(_) => SubcommandId::Unknown0x5a,
            SubcommandRequestEnum::Unknown0x5b(_) => SubcommandId::Unknown0x5b,
            SubcommandRequestEnum::Unknown0x5c(_) => SubcommandId::Unknown0x5c,
        }
    }

    /// The arguments on the wire.
    pub open spec fn spec_payload(self) -> Seq<u8> {
        match self {
            SubcommandRequestEnum::GetOnlyControllerState(_) => Seq::empty(),
            SubcommandRequestEnum::BluetoothManualPairing(_) => Seq::empty(),
            SubcommandRequestEnum::RequestDeviceInfo(_) => Seq::empty(),
            SubcommandRequestEnum::SetInputReportMode(x) => seq![x.0],
            SubcommandRequestEnum::GetTriggerButtonsElapsedTime(_) => Seq::empty(),
            SubcommandRequestEnum::SetShipmentMode(x) => seq![x.0],
            SubcommandRequestEnum::SPIRead(x) => x.spec_bytes(),
            SubcommandRequestEnum::SPIWrite(x) => x.spec_bytes(),
            SubcommandRequestEnum::SetMCUConf(x) => x.spec_bytes(),
            SubcommandRequestEnum::SetMCUState(x) => seq![x.0],
            SubcommandRequestEnum::SetUnknownData(x) => x@,
            SubcommandRequestEnum::SetPlayerLights(x) => seq![x.0],
            SubcommandRequestEnum::SetHomeLight(x) => x.spec_bytes(),
            SubcommandRequestEnum::SetIMUMode(x) => seq![x.0],
            SubcommandRequestEnum::SetIMUSens(x) => x.spec_bytes(),
            SubcommandRequestEnum::EnableVibration(x) => seq![x.0],
            SubcommandRequestEnum::MaybeAccessory(x) => x.spec_bytes(),
            SubcommandRequestEnum::Unknown0x59(_) => Seq::empty(),
            SubcommandRequestEnum::Unknown0x5a(x) => x@,
            SubcommandRequestEnum::Unknown0x5b(_) => Seq::empty(),
            SubcommandRequestEnum::Unknown0x5c(x) => x@,
        }
    }
}

/// A subcommand on the wire: its id, then 38 bytes of arguments.
#[derive(Copy, Clone, Debug)]
pub struct SubcommandRequest {
    pub id: SubcommandId,
    pub u: [u8; 38],
}

impl SubcommandRequest {
    /// The 39 bytes on the wire.
    pub open spec fn spec_bytes(self) -> Seq<u8> {
        seq![self.id.spec_to_u8()] + self.u@
    }

    /// The subcommand `id` with `payload` padded to 38 bytes.
    pub open spec fn of(id: SubcommandId, payload: Seq<u8>) -> SubcommandRequest {
        SubcommandRequest { id, u: array38(padded(payload, 38)) }
    }

    fn with_payload(id: SubcommandId, payload: &[u8]) -> (r: SubcommandRequest)
        requires
            payload@.len() <= 38,
        ensures
            r == SubcommandRequest::of(id, payload@),
    {
        SubcommandRequest { id, u: pad38(payload) }
    }

    pub fn id(&self) -> (r: SubcommandId)
        ensures
            r == self.id,
    {
        self.id
    }

    /// The 39 bytes on the wire.
    pub fn bytes(&self) -> (r: [u8; 39])
        ensures
            r@ == self.spec_bytes(),
    {
        let mut r = [0u8; 39];
        r[0] = self.id.to_u8();
        let mut i: usize = 0;
        while i < 38
            invariant
                i <= 38,
                r@.len() == 39,
                forall|j: int| 0 <= j < 1 + i ==> r@[j] == self.spec_bytes()[j],
            decreases 38 - i,
        {
            r[1 + i] = self.u[i];
            i += 1;
        }
        assert(r@ =~= self.spec_bytes());
        r
    }

    /// Leaves the shipment mode.
    pub fn disable_shipment_mode() -> (r: Self)
        ensures
            r == SubcommandRequest::of(SubcommandId::SetShipmentMode, seq![0u8]),
    {
        SubcommandRequest::from(SubcommandRequestEnum::SetShipmentMode(RawId::from(Bool::False)))
    }

    pub fn subcmd_0x59() -> (r: Self)
        ensures
            r == SubcommandRequest::of(SubcommandId::Unknown0x59, Seq::empty()),
    {
        SubcommandRequest::from(SubcommandRequestEnum::Unknown0x59(()))
    }

    pub fn subcmd_0x5a() -> (r: Self)
        ensures
            r == SubcommandRequest::of(SubcommandId::Unknown0x5a, seq![4u8, 1, 1, 2] + crate::bytes::zeros(34)),
    {
        let mut a = [0u8; 38];
        a[0] = 4;
        a[1] = 1;
        a[2] = 1;
        a[3] = 2;
        assert(a@ =~= seq![4u8, 1, 1, 2] + crate::bytes::zeros(34));
        SubcommandRequest::from(SubcommandRequestEnum::Unknown0x5a(a))
    }

    pub fn subcmd_0x5b() -> (r: Self)
        ensures
            r == SubcommandRequest::of(SubcommandId::Unknown0x5b, Seq::empty()),
    {
        SubcommandRequest::from(SubcommandRequestEnum::Unknown0x5b(()))
    }

    pub fn subcmd_0x5c_0() -> (r: Self)
        ensures
            r.id == SubcommandId::Unknown0x5c,
            r.u@ == seq![
                0u8, 0, 150, 227, 28, 0, 0, 0, 236, 153, 172, 227, 28, 0, 0, 0, 243, 130, 241, 89, 46,
                89, 0, 0, 224, 88, 179, 227, 28, 0, 0, 0, 0, 242, 5, 42, 1, 0,
            ],
    {
        let a: [u8; 38] = [
            0, 0, 150, 227, 28, 0, 0, 0, 236, 153, 172, 227, 28, 0, 0, 0, 243, 130, 241, 89, 46,
            89, 0, 0, 224, 88, 179, 227, 28, 0, 0, 0, 0, 242, 5, 42, 1, 0,
        ];
        SubcommandRequest::from(SubcommandRequestEnum::Unknown0x5c(a))
    }

    pub fn subcmd_0x5c_6() -> (r: Self)
        ensures
            r.id == SubcommandId::Unknown0x5c,
            r.u@ == seq![
                6u8, 3, 37, 6, 0, 0, 0, 0, 236, 153, 172, 227, 28, 0, 0, 0, 105, 155, 22, 246, 93, 86, 0,
                0, 4, 0, 0, 0, 0, 0, 0, 0, 144, 40, 161, 227, 28, 0,
            ],
    {
        let a: [u8; 38] = [
            6, 3, 37, 6, 0, 0, 0, 0, 236, 153, 172, 227, 28, 0, 0, 0, 105, 155, 22, 246, 93, 86, 0,
            0, 4, 0, 0, 0, 0, 0, 0, 0, 144, 40, 161, 227, 28, 0,
        ];
        SubcommandRequest::from(SubcommandRequestEnum::Unknown0x5c(a))
    }
}

impl From<SubcommandRequestEnum> for SubcommandRequest {
    fn from(e: SubcommandRequestEnum) -> (r: SubcommandRequest) {
        match e {
            SubcommandRequestEnum::GetOnlyControllerState(_) => {
                let empty: [u8; 0] = [];
                assert(empty@ =~= Seq::<u8>::empty());
                SubcommandRequest::with_payload(SubcommandId::GetOnlyControllerState, &empty)
            },
            SubcommandRequestEnum::BluetoothManualPairing(_) => {
                let empty: [u8; 0] = [];
                assert(empty@ =~= Seq::<u8>::empty());
                SubcommandRequest::with_payload(SubcommandId::BluetoothManualPairing, &empty)
            },
            SubcommandRequestEnum::RequestDeviceInfo(_) => {
                let empty: [u8; 0] = [];
                assert(empty@ =~= Seq::<u8>::empty());
                SubcommandRequest::with_payload(SubcommandId::RequestDeviceInfo, &empty)
            },
            SubcommandRequestEnum::SetInputReportMode(x) => {
                let b = [x.0];
                assert(b@ =~= seq![x.0]);
                SubcommandRequest::with_payload(SubcommandId::SetInputReportMode, &b)
            },
            SubcommandRequestEnum::GetTriggerButtonsElapsedTime(_) => {
                let empty: [u8; 0] = [];
                assert(empty@ =~= Seq::<u8>::empty());
                SubcommandRequest::with_payload(SubcommandId::GetTriggerButtonsElapsedTime, &empty)
            },
            SubcommandRequestEnum::SetShipmentMode(x) => {
                let b = [x.0];
                assert(b@ =~= seq![x.0]);
                SubcommandRequest::with_payload(SubcommandId::SetShipmentMode, &b)
            },
            SubcommandRequestEnum::SPIRead(x) => {
                let b = x.bytes();
                SubcommandRequest::with_payload(SubcommandId::SPIRead, &b)
            },
            SubcommandRequestEnum::SPIWrite(x) => {
                let b = x.bytes();
                SubcommandRequest::with_payload(SubcommandId::SPIWrite, &b)
            },
            SubcommandRequestEnum::SetMCUConf(x) => {
                let b = x.bytes();
                SubcommandRequest::with_payload(SubcommandId::SetMCUConf, &b)
            },
            SubcommandRequestEnum::SetMCUState(x) => {
                let b = [x.0];
                assert(b@ =~= seq![x.0]);
                SubcommandRequest::with_payload(SubcommandId::SetMCUState, &b)
            },
            SubcommandRequestEnum::SetUnknownData(x) => SubcommandRequest::with_payload(SubcommandId::SetUnknownData, &x),
            SubcommandRequestEnum::SetPlayerLights(x) => {
                let b = [x.0];
                assert(b@ =~= seq![x.0]);
                SubcommandRequest::with_payload(SubcommandId::SetPlayerLights, &b)
            },
            SubcommandRequestEnum::SetHomeLight(x) => {
                let b = x.bytes();
                SubcommandRequest::with_payload(SubcommandId::SetHomeLight, &b)
            },
            SubcommandRequestEnum::SetIMUMode(x) => {
                let b = [x.0];
                assert(b@ =~= seq![x.0]);
                SubcommandRequest::with_payload(SubcommandId::SetIMUMode, &b)
            },
            SubcommandRequestEnum::SetIMUSens(x) => {
                let b = x.bytes();
                SubcommandRequest::with_payload(SubcommandId::SetIMUSens, &b)
            },
            SubcommandRequestEnum::EnableVibration(x) => {
                let b = [x.0];
                assert(b@ =~= seq![x.0]);
                SubcommandRequest::with_payload(SubcommandId::EnableVibration, &b)
            },
            SubcommandRequestEnum::MaybeAccessory(x) => {
                let b = x.bytes();
                SubcommandRequest::with_payload(SubcommandId::MaybeAccessory, &b)
            },
            SubcommandRequestEnum::Unknown0x59(_) => {
                let empty: [u8; 0] = [];
                assert(empty@ =~= Seq::<u8>::empty());
                SubcommandRequest::with_payload(SubcommandId::Unknown0x59, &empty)
            },
            SubcommandRequestEnum::Unknown0x5a(x) => SubcommandRequest::with_payload(SubcommandId::Unknown0x5a, &x),
            SubcommandRequestEnum::Unknown0x5b(_) => {
                let empty: [u8; 0] = [];
                assert(empty@ =~= Seq::<u8>::empty());
                SubcommandRequest::with_payload(SubcommandId::Unknown0x5b, &empty)
            },
            SubcommandRequestEnum::Unknown0x5c(x) => SubcommandRequest::with_payload(SubcommandId::Unknown0x5c, &x),
        }
    }
}

impl FromSpecImpl<SubcommandRequestEnum> for SubcommandRequest {
    open spec fn obeys_from_spec() -> bool {
        true
    }

    open spec fn from_spec(e: SubcommandRequestEnum) -> SubcommandRequest {
        SubcommandRequest::of(e.spec_id(), e.spec_payload())
    }
}
impl From<MCUCommand> for SubcommandRequest {
    fn from(x: MCUCommand) -> (r: SubcommandRequest) {
        SubcommandRequest::from(SubcommandRequestEnum::SetMCUConf(x))
    }
}

impl FromSpecImpl<MCUCommand> for SubcommandRequest {
    open spec fn obeys_from_spec() -> bool {
        true
    }

    open spec fn from_spec(x: MCUCommand) -> SubcommandRequest {
        SubcommandRequest::of(SubcommandId::SetMCUConf, x.spec_bytes())
    }
}

impl From<AccessoryCommand> for SubcommandRequest {
    fn from(x: AccessoryCommand) -> (r: SubcommandRequest) {
        SubcommandRequest::from(SubcommandRequestEnum::MaybeAccessory(x))
    }
}

impl FromSpecImpl<AccessoryCommand> for SubcommandRequest {
    open spec fn obeys_from_spec() -> bool {
        true
    }

    open spec fn from_spec(x: AccessoryCommand) -> SubcommandRequest {
        SubcommandRequest::of(SubcommandId::MaybeAccessory, x.spec_bytes())
    }
}

impl From<Sensitivity> for SubcommandRequest {
    fn from(x: Sensitivity) -> (r: SubcommandRequest) {
        SubcommandRequest::from(SubcommandRequestEnum::SetIMUSens(x))
    }
}

impl FromSpecImpl<Sensitivity> for SubcommandRequest {
    open spec fn obeys_from_spec() -> bool {
        true
    }

    open spec fn from_spec(x: Sensitivity) -> SubcommandRequest {
        SubcommandRequest::of(SubcommandId::SetIMUSens, x.spec_bytes())
    }
}

impl From<SPIReadRequest> for SubcommandRequest {
    fn from(x: SPIReadRequest) -> (r: SubcommandRequest) {
        SubcommandRequest::from(SubcommandRequestEnum::SPIRead(x))
    }
}

impl FromSpecImpl<SPIReadRequest> for SubcommandRequest {
    open spec fn obeys_from_spec() -> bool {
        true
    }

    open spec fn from_spec(x: SPIReadRequest) -> SubcommandRequest {
        SubcommandRequest::of(SubcommandId::SPIRead, x.spec_bytes())
    }
}

impl From<SPIWriteRequest> for SubcommandRequest {
    fn from(x: SPIWriteRequest) -> (r: SubcommandRequest) {
        SubcommandRequest::from(SubcommandRequestEnum::SPIWrite(x))
    }
}

impl FromSpecImpl<SPIWriteRequest> for SubcommandRequest {
    open spec fn obeys_from_spec() -> bool {
        true
    }

    open spec fn from_spec(x: SPIWriteRequest) -> SubcommandRequest {
        SubcommandRequest::of(SubcommandId::SPIWrite, x.spec_bytes())
    }
}

impl From<PlayerLights> for SubcommandRequest {
    fn from(x: PlayerLights) -> (r: SubcommandRequest) {
        SubcommandRequest::from(SubcommandRequestEnum::SetPlayerLights(x))
    }
}

impl FromSpecImpl<PlayerLights> for SubcommandRequest {
    open spec fn obeys_from_spec() -> bool {
        true
    }

    open spec fn from_spec(x: PlayerLights) -> SubcommandRequest {
        SubcommandRequest::of(SubcommandId::SetPlayerLights, seq![x.0])
    }
}

impl From<HomeLight> for SubcommandRequest {
    fn from(x: HomeLight) -> (r: SubcommandRequest) {
        SubcommandRequest::from(SubcommandRequestEnum::SetHomeLight(x))
    }
}

impl FromSpecImpl<HomeLight> for SubcommandRequest {
    open spec fn obeys_from_spec() -> bool {
        true
    }

    open spec fn from_spec(x: HomeLight) -> SubcommandRequest {
        SubcommandRequest::of(SubcommandId::SetHomeLight, x.spec_bytes())
    }
}

/// The packet counter and the rumble data that start most output reports.
#[derive(Copy, Clone, Debug)]
pub struct Rumble {
    pub packet_counter: u8,
    pub rumble_data: RumbleData,
}

/// The rumble of both sides.
#[derive(Copy, Clone, Debug)]
pub struct RumbleData {
    pub left: RumbleSide,
    pub right: RumbleSide,
}

impl RumbleData {
    /// No vibration on either side.
    pub open spec fn idle() -> RumbleData {
        RumbleData { left: RumbleSide::idle(), right: RumbleSide::idle() }
    }

    /// The eight bytes on the wire.
    pub open spec fn spec_bytes(self) -> Seq<u8> {
        self.left.spec_bytes() + self.right.spec_bytes()
    }

    /// The eight bytes on the wire.
    pub fn bytes(&self) -> (r: [u8; 8])
        ensures
            r@ == self.spec_bytes(),
    {
        let r = [
            self.left.hb_freq_msB,
            self.left.hb_freq_lsb_amp_high,
            self.left.lb_freq_amp_low_msb,
            self.left.amp_low_lsB,
            self.right.hb_freq_msB,
            self.right.hb_freq_lsb_amp_high,
            self.right.lb_freq_amp_low_msb,
            self.right.amp_low_lsB,
        ];
        assert(r@ =~= self.spec_bytes());
        r
    }
}

impl Default for RumbleData {
    fn default() -> (r: Self)
        ensures
            r == RumbleData::idle(),
    {
        RumbleData { left: RumbleSide::default(), right: RumbleSide::default() }
    }
}

/// The rumble of one side: high band frequency and amplitude, low band
/// frequency and amplitude, encoded in four bytes.
#[derive(Copy, Clone, Debug, PartialEq, Eq, Structural)]
#[allow(non_snake_case)]
pub struct RumbleSide {
    pub hb_freq_msB: u8,
    pub hb_freq_lsb_amp_high: u8,
    pub lb_freq_amp_low_msb: u8,
    pub amp_low_lsB: u8,
}

impl RumbleSide {
    /// The four bytes on the wire.
    pub open spec fn spec_bytes(self) -> Seq<u8> {
        seq![self.hb_freq_msB, self.hb_freq_lsb_amp_high, self.lb_freq_amp_low_msb, self.amp_low_lsB]
    }

    /// No vibration: 320 Hz and 160 Hz at amplitude 0.
    pub open spec fn idle() -> RumbleSide {
        RumbleSide { hb_freq_msB: 0x00, hb_freq_lsb_amp_high: 0x01, lb_freq_amp_low_msb: 0x40, amp_low_lsB: 0x40 }
    }

    /// Packs encoded frequencies and amplitudes; each must lie in its bits.
    pub fn from_encoded(high_freq: [u8; 2], high_amp: u8, low_freq: u8, low_amp: [u8; 2]) -> (r: RumbleSide)
        requires
            high_freq[0] % 4 == 0,
            high_freq[1] < 2,
            high_amp % 2 == 0,
            high_amp <= 0xc8,
            low_freq < 0x80,
            low_amp[0] % 0x80 == 0,
            0x40 <= low_amp[1] <= 0x72,
        ensures
            r.hb_freq_msB == high_freq[0],
            r.hb_freq_lsb_amp_high == high_freq[1] + high_amp,
            r.lb_freq_amp_low_msb == low_freq + low_amp[0],
            r.amp_low_lsB == low_amp[1],
    {
        RumbleSide {
            hb_freq_msB: high_freq[0],
            hb_freq_lsb_amp_high: high_freq[1] + high_amp,
            lb_freq_amp_low_msb: low_freq + low_amp[0],
            amp_low_lsB: low_amp[1],
        }
    }
}

impl RumbleSide {
    /// Packs the encoded levels of a rumble: the frequency codes (32 steps
    /// per octave above 10 Hz; `0x60..=0xdf` for the high band,
    /// `0x40..=0xbf` for the low band) and the amplitudes in percent.
    pub fn from_levels(hi_freq_code: u16, hi_amp_pct: u8, low_freq_code: u16, low_amp_pct: u8) -> (r: RumbleSide)
        requires
            0x60 <= hi_freq_code < 0xe0,
            0x40 <= low_freq_code < 0xc0,
            hi_amp_pct <= 100,
            low_amp_pct <= 100,
        ensures
            ({
                let hi = (hi_freq_code - 0x60) * 4;
                let low_amp = low_amp_pct + 0x80;
                &&& r.hb_freq_msB == hi % 256
                &&& r.hb_freq_lsb_amp_high == hi / 256 + hi_amp_pct * 2
                &&& r.lb_freq_amp_low_msb == (low_freq_code - 0x40) + (low_amp % 2) * 0x80
                &&& r.amp_low_lsB == low_amp / 2
            }),
    {
        let hi_freq_hex: u16 = (hi_freq_code - 0x60) * 4;
        let low_freq_hex: u8 = (low_freq_code - 0x40) as u8;
        let hi_amp_hex: u8 = hi_amp_pct * 2;
        let low_amp_hex: u8 = low_amp_pct + 0x80;
        RumbleSide::from_encoded(
            [(hi_freq_hex % 256) as u8, (hi_freq_hex / 256) as u8],
            hi_amp_hex,
            low_freq_hex,
            [(low_amp_hex % 2) * 0x80, low_amp_hex / 2],
        )
    }
}

impl Default for RumbleSide {
    fn default() -> (r: Self)
        ensures
            r == RumbleSide::idle(),
    {
        RumbleSide::from_encoded([0x00, 0x01], 0, 0x40, [0x00, 0x40])
    }
}

impl From<SubcommandRequest> for OutputReport {
    fn from(subcmd: SubcommandRequest) -> (r: OutputReport) {
        let b = subcmd.bytes();
        OutputReport::build(OutputReportId::RumbleAndSubcmd, RumbleData::default(), &b)
    }
}

impl FromSpecImpl<SubcommandRequest> for OutputReport {
    open spec fn obeys_from_spec() -> bool {
        true
    }

    open spec fn from_spec(subcmd: SubcommandRequest) -> OutputReport {
        OutputReport::of(OutputReportId::RumbleAndSubcmd, RumbleData::idle(), subcmd.spec_bytes())
    }
}

impl From<MCURequest> for OutputReport {
    fn from(mcu_request: MCURequest) -> (r: OutputReport) {
        let b = mcu_request.bytes();
        OutputReport::build(OutputReportId::RequestMCUData, RumbleData::default(), &b)
    }
}

impl FromSpecImpl<MCURequest> for OutputReport {
    open spec fn obeys_from_spec() -> bool {
        true
    }

    open spec fn from_spec(mcu_request: MCURequest) -> OutputReport {
        OutputReport::of(OutputReportId::RequestMCUData, RumbleData::idle(), mcu_request.spec_bytes())
    }
}

/// The size of an output report in memory.
pub const OUTPUT_REPORT_SIZE: usize = 49;

/// A HID report to the controller: its id, the packet counter, the rumble
/// data, then a subcommand or an MCU request.
///
/// Layout: the counter at 1, the rumble data at 2, a subcommand at 10 (its
/// arguments at 11), an MCU request at 10 (its arguments at 11).
#[derive(Copy, Clone, Debug)]
pub struct OutputReport {
    pub id: OutputReportId,
    pub raw: [u8; 48],
}

/// The first `min(len, 9)` registers, the others left at zero.
pub open spec fn first_registers(regs: Seq<Register>) -> MCURegisters {
    MCURegisters {
        len: (if regs.len() < 9 { regs.len() } else { 9 }) as u8,
        regs: [
            if 0 < regs.len() { regs[0] } else { Register::zero() },
            if 1 < regs.len() { regs[1] } else { Register::zero() },
            if 2 < regs.len() { regs[2] } else { Register::zero() },
            if 3 < regs.len() { regs[3] } else { Register::zero() },
            if 4 < regs.len() { regs[4] } else { Register::zero() },
            if 5 < regs.len() { regs[5] } else { Register::zero() },
            if 6 < regs.len() { regs[6] } else { Register::zero() },
            if 7 < regs.len() { regs[7] } else { Register::zero() },
            if 8 < regs.len() { regs[8] } else { Register::zero() },
        ],
    }
}

impl OutputReport {
    /// The 49 bytes of the report in memory.
    pub open spec fn spec_bytes(self) -> Seq<u8> {
        seq![self.id.spec_to_u8()] + self.raw@
    }

    /// The report `id` with counter 0, `rumble`, then `payload` padded to
    /// 39 bytes.
    pub open spec fn of(id: OutputReportId, rumble: RumbleData, payload: Seq<u8>) -> OutputReport {
        OutputReport { id, raw: array48(seq![0u8] + rumble.spec_bytes() + padded(payload, 39)) }
    }

    /// The wire length of a report with this id.
    pub open spec fn spec_len(self) -> usize {
        match self.id {
            OutputReportId::RumbleAndSubcmd => 49,
            OutputReportId::RumbleOnly => 10,
            _ => 48,
        }
    }

    /// A report with `id`, counter 0, default rumble and then `payload`.
    fn build(id: OutputReportId, rumble: RumbleData, payload: &[u8]) -> (r: OutputReport)
        requires
            payload@.len() <= 39,
        ensures
            r == OutputReport::of(id, rumble, payload@),
    {
        let mut raw = [0u8; 48];
        let rb = rumble.bytes();
        let mut i: usize = 0;
        while i < 8
            invariant
                i <= 8,
                raw@.len() == 48,
                raw@[0] == 0,
                forall|j: int| 1 <= j < 1 + i ==> raw@[j] == rb@[j - 1],
                forall|j: int| 9 <= j < 48 ==> raw@[j] == 0,
            decreases 8 - i,
        {
            raw[1 + i] = rb[i];
            i += 1;
        }
        let mut k: usize = 0;
        while k < payload.len()
            invariant
                k <= payload@.len() <= 39,
                raw@.len() == 48,
                raw@[0] == 0,
                forall|j: int| 1 <= j < 9 ==> raw@[j] == rb@[j - 1],
                forall|j: int| 9 <= j < 9 + k ==> raw@[j] == payload@[j - 9],
                forall|j: int| 9 + k <= j < 48 ==> raw@[j] == 0,
            decreases payload@.len() - k,
        {
            raw[9 + k] = payload[k];
            k += 1;
        }
        assert(raw@ =~= seq![0u8] + rumble.spec_bytes() + padded(payload@, 39));
        assert(raw =~= array48(seq![0u8] + rumble.spec_bytes() + padded(payload@, 39)));
        OutputReport { id, raw }
    }

    /// Sets the packet counter of the report.
    pub fn set_packet_counter(&mut self, counter: u8)
        ensures
            final(self).id == old(self).id,
            final(self).raw@ == old(self).raw@.update(0, counter),
    {
        self.raw[0] = counter;
    }

    /// Whether the report does more than rumble.
    pub fn is_special(&self) -> (r: bool)
        ensures
            r == (self.id != OutputReportId::RumbleOnly),
    {
        self.id != OutputReportId::RumbleOnly
    }

    /// The length of the report on the wire.
    pub fn len(&self) -> (r: usize)
        requires
            self.id != OutputReportId::MCUFwUpdate,
        ensures
            r == self.spec_len(),
    {
        match self.id {
            OutputReportId::RumbleAndSubcmd => 49,
            OutputReportId::RumbleOnly => 10,
            _ => 48,
        }
    }

    /// The bytes of the report on the wire.
    pub fn as_bytes(&self) -> (r: Vec<u8>)
        requires
            self.id != OutputReportId::MCUFwUpdate,
        ensures
            r@ == self.spec_bytes().subrange(0, self.spec_len() as int),
    {
        let len = self.len();
        let mut r: Vec<u8> = Vec::new();
        r.push(self.id.to_u8());
        let mut i: usize = 1;
        while i < len
            invariant
                1 <= i <= len <= 49,
                len == self.spec_len(),
                r@ == self.spec_bytes().subrange(0, i as int),
            decreases len - i,
        {
            r.push(self.raw[i - 1]);
            assert(r@ =~= self.spec_bytes().subrange(0, i + 1));
            i += 1;
        }
        r
    }

    /// Writes up to nine registers of the IR camera; returns the report and
    /// the registers left for later reports.
    pub fn set_registers(regs: &[Register]) -> (r: (OutputReport, &[Register]))
        ensures
            r.0 == OutputReport::of(
                OutputReportId::RumbleAndSubcmd,
                RumbleData::idle(),
                SubcommandRequest::of(
                    SubcommandId::SetMCUConf,
                    mcu_command_bytes(
                        MCUCommandId::ConfigureIR,
                        MCUSubCommandId::WriteIRRegisters,
                        first_registers(regs@).spec_bytes(),
                    ),
                ).spec_bytes(),
            ),
            regs@.len() <= 9 ==> r.1@ == Seq::<Register>::empty(),
            regs@.len() > 9 ==> r.1@ == regs@.subrange(9, regs@.len() as int),
    {
        let size = if regs.len() < 9 { regs.len() } else { 9 };
        let mut regs_fixed = [Register::default();9];
        let mut i: usize = 0;
        while i < size
            invariant
                i <= size <= 9,
                size <= regs@.len(),
                forall|j: int| 0 <= j < i ==> regs_fixed[j] == regs@[j],
                forall|j: int| i <= j < 9 ==> regs_fixed[j] == Register::zero(),
            decreases size - i,
        {
            regs_fixed[i] = regs[i];
            i += 1;
        }
        let mcu_regs = MCURegisters { len: size as u8, regs: regs_fixed };
        assert(regs_fixed =~= first_registers(regs@).regs);
        assert(mcu_regs == first_registers(regs@));
        let mcu_cmd = MCUCommand::set_ir_registers(mcu_regs);
        let (_, rest) = regs.split_at(size);
        (OutputReport::from(SubcommandRequest::from(mcu_cmd)), rest)
    }

    fn ir_build(ack_request_packet: IRAckRequestPacket) -> (r: OutputReport)
        ensures
            r == OutputReport::of(
                OutputReportId::RequestMCUData,
                RumbleData::idle(),
                seq![3u8] + MCURequest::ir_request_bytes(
                    (IRRequest {
                        id: IRRequestId::GetSensorData,
                        u: [
                            ack_request_packet.packet_missing.0,
                            ack_request_packet.missed_packet_id,
                            ack_request_packet.ack_packet_id,
                            0,
                        ],
                    }),
                ),
            ),
    {
        let mcu_request = MCURequest::from_ir_request(IRRequest::from(ack_request_packet));
        OutputReport::from(mcu_request)
    }

    /// Asks the camera to send fragment `packet_id` again.
    pub fn ir_resend(packet_id: u8) -> (r: OutputReport)
        ensures
            r == OutputReport::of(
                OutputReportId::RequestMCUData,
                RumbleData::idle(),
                seq![3u8] + MCURequest::ir_request_bytes(
                    (IRRequest { id: IRRequestId::GetSensorData, u: [1, packet_id, 0, 0] }),
                ),
            ),
    {
        OutputReport::ir_build(
            IRAckRequestPacket {
                packet_missing: RawId::from(Bool::True),
                missed_packet_id: packet_id,
                ack_packet_id: 0,
            },
        )
    }

    /// Acknowledges fragment `packet_id` of the camera.
    pub fn ir_ack(packet_id: u8) -> (r: OutputReport)
        ensures
            r == OutputReport::of(
                OutputReportId::RequestMCUData,
                RumbleData::idle(),
                seq![3u8] + MCURequest::ir_request_bytes(
                    (IRRequest { id: IRRequestId::GetSensorData, u: [0, 0, packet_id, 0] }),
                ),
            ),
    {
        OutputReport::ir_build(
            IRAckRequestPacket {
                packet_missing: RawId::from(Bool::False),
                missed_packet_id: 0,
                ack_packet_id: packet_id,
            },
        )
    }

    /// A report that only rumbles.
    pub fn set_rumble(rumble: RumbleData) -> (r: OutputReport)
        ensures
            r == OutputReport::of(OutputReportId::RumbleOnly, rumble, Seq::empty()),
    {
        let empty: [u8; 0] = [];
        assert(empty@ =~= Seq::<u8>::empty());
        OutputReport::build(OutputReportId::RumbleOnly, rumble, &empty)
    }
}


/// Identifier of an output report, its first byte.
#[derive(Copy, Clone, Debug, PartialEq, Eq, Structural)]
pub enum OutputReportId {
    RumbleAndSubcmd,
    MCUFwUpdate,
    RumbleOnly,
    RequestMCUData,
}

impl IdEnum for OutputReportId {
    open spec fn spec_from_u8(b: u8) -> Option<Self> {
        if b == 0x01 {
            Some(OutputReportId::RumbleAndSubcmd)
        } else if b == 0x03 {
            Some(OutputReportId::MCUFwUpdate)
        } else if b == 0x10 {
            Some(OutputReportId::RumbleOnly)
        } else if b == 0x11 {
            Some(OutputReportId::RequestMCUData)
        } else {
            None
        }
    }

    open spec fn spec_to_u8(self) -> u8 {
        match self {
            OutputReportId::RumbleAndSubcmd => 0x01,
            OutputReportId::MCUFwUpdate => 0x03,
            OutputReportId::RumbleOnly => 0x10,
            OutputReportId::RequestMCUData => 0x11,
        }
    }

    fn from_u8(b: u8) -> (r: Option<Self>) {
        match b {
            0x01 => Some(OutputReportId::RumbleAndSubcmd),
            0x03 => Some(OutputReportId::MCUFwUpdate),
            0x10 => Some(OutputReportId::RumbleOnly),
            0x11 => Some(OutputReportId::RequestMCUData),
            _ => None,
        }
    }

    fn to_u8(self) -> (r: u8) {
        match self {
            OutputReportId::RumbleAndSubcmd => 0x01,
            OutputReportId::MCUFwUpdate => 0x03,
            OutputReportId::RumbleOnly => 0x10,
            OutputReportId::RequestMCUData => 0x11,
        }
    }

    proof fn lemma_to_from(self) {
    }

    proof fn lemma_from_to(b: u8) {
    }
}


} // verus!
