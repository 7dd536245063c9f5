//! The decisions of the Joy-Con driver.
//!
//! Talking to a controller alternates writes and reads on the HID device with
//! decisions. The driver state and the decisions are here: each operation of
//! [`JoyCon`] gives the [`Step`]s to perform, and the functions that judge the
//! reports read are verified. Whoever owns the device runs the steps: it
//! stamps each report it writes with [`JoyCon::send`], and waits for replies
//! and MCU reports as `crate::wait` says, report by report. Errors of the
//! steps between a `Within` and its `End` are reported in that context.
use crate::common::{Bool, IdEnum, InputReportId, RawId, SubcommandId};
use crate::imu::{AccSens, GyroSens, IMUMode, Sensitivity};
use crate::input::{BatteryLevel, DeviceInfo, InputReport, SubcommandReply, WhichController};
use crate::light::{HomeLight, PlayerLight, PlayerLights};
use crate::mcu::ir::{IRReadRegisters, IRRequest, IRRequestId, MCUIRMode, MCUIRModeData};
use crate::mcu::ir_register::{raw_reg, reg, Register, Resolution};
use crate::mcu::{MCUCommand, MCUCommandId, MCUMode, MCUReport, MCUReportId, MCURequest, MCUSubCommandId};
use crate::output::{OutputReport, OutputReportId, RumbleData, SubcommandRequest, SubcommandRequestEnum};
use crate::spi::{
    LeftStickCalibration, RightStickCalibration, SPIRange, SPIReadRequest, SPIWriteRequest,
    SensorCalibration, SticksCalibration, UserSensorCalibration, WrongRangeError, SPI,
};
use crate::common::U16LE;
use crate::bytes::{array38, le_u32, padded, sub_array};
use crate::mcu::MCUStatus;
use crate::spi::u32_le_bytes;
use crate::input::Ack;
use vstd::prelude::*;

verus! {

/// How many reports the driver reads while waiting for a reply, and how many
/// times it sends a request to the MCU, before giving up.
pub const WAIT_TIMEOUT: u32 = 200;

/// A condition on an MCU report that a wait is for.
#[derive(Copy, Clone, Debug, PartialEq, Eq, Structural)]
pub enum McuCondition {
    /// Any status of the MCU.
    Status,
    /// A status of the MCU in this mode.
    Mode(MCUMode),
    /// A state of the IR camera in this mode.
    IrMode(MCUIRMode),
    /// The registers of the IR camera from `offset` of `page`.
    IrRegisters { page: u8, offset: u8, nb_registers: u8 },
    /// Any report but one saying that the MCU is still starting.
    NotBusy,
}

impl McuCondition {
    /// Whether an MCU report with id byte `id` and content `u` meets the
    /// condition.
    pub open spec fn holds_on(self, id: u8, u: Seq<u8>) -> bool {
        match self {
            McuCondition::Status => MCUReportId::spec_from_u8(id) == Some(MCUReportId::StateReport),
            McuCondition::Mode(mode) => MCUReportId::spec_from_u8(id) == Some(MCUReportId::StateReport)
                && MCUMode::spec_from_u8(u[6]) == Some(mode),
            McuCondition::IrMode(mode) => MCUReportId::spec_from_u8(id) == Some(MCUReportId::IRStatus)
                && MCUIRMode::spec_from_u8(u[1]) == Some(mode),
            McuCondition::IrRegisters { page, offset, nb_registers } => MCUReportId::spec_from_u8(id) == Some(
                MCUReportId::IRRegisters,
            ) && u[1] == page && u[2] == offset && u[3] == nb_registers,
            McuCondition::NotBusy => MCUReportId::spec_from_u8(id) != Some(MCUReportId::BusyInitializing),
        }
    }

    pub open spec fn holds(self, report: MCUReport) -> bool {
        self.holds_on(report.id.0, report.u@)
    }

    /// Whether the report is the one waited for.
    pub fn check(&self, report: &MCUReport) -> (r: bool)
        ensures
            r == self.holds(*report),
    {
        match *self {
            McuCondition::Status => report.as_status().is_some(),
            McuCondition::Mode(mode) => match report.as_status() {
                Some(status) => status.state.is(mode),
                None => false,
            },
            McuCondition::IrMode(mode) => match report.as_ir_status() {
                Some(status) => status.ir_mode.is(mode),
                None => false,
            },
            McuCondition::IrRegisters { page, offset, nb_registers } => match report.as_ir_registers() {
                Some(slice) => slice.page == page && slice.offset == offset && slice.nb_registers
                    == nb_registers,
                None => false,
            },
            McuCondition::NotBusy => !report.is_busy_init(),
        }
    }
}

/// One step of an operation on the controller.
#[derive(Copy, Clone, Debug)]
pub enum Step {
    /// Send the subcommand and wait for its acknowledged reply.
    Subcmd(SubcommandRequest),
    /// Send the subcommand again until its reply carries an MCU status in
    /// the mode.
    SubcmdUntilMcuMode(SubcommandRequest, MCUMode),
    /// Send the report; no reply is awaited.
    Send(OutputReport),
    /// Pause, in milliseconds.
    Sleep(u64),
    /// Send the request until an MCU report meets the condition.
    WaitMcu(MCURequest, McuCondition),
    /// Read reports, without sending, until an MCU report meets the condition.
    WaitReport(McuCondition),
    /// Configure the IR camera in this mode with this number of fragments,
    /// with the firmware version of the last MCU status waited for.
    ConfigureIr(MCUIRMode, u8),
    /// Turn the relay of IR image fragments on or off.
    SetIrLoop(bool),
    /// The errors of the steps up to the matching `End` are reported in this
    /// context.
    Within(ErrorContext),
    /// Ends the context opened by the last `Within` still open.
    End,
}

/// What an error of a group of steps is reported as.
#[derive(Copy, Clone, Debug, PartialEq, Eq, Structural)]
pub enum ErrorContext {
    /// Starting the MCU in standby.
    EnableMcu,
    /// Switching the MCU to IR mode.
    SetMcuModeIr,
    /// Checking the state of the camera.
    CheckSensorState,
    /// Reading a page of registers of the camera.
    GetIrRegistersSlice,
    /// Resetting the camera before a change of resolution.
    ChangeIrResolutionReset,
    /// Writing the resolution to the camera.
    ChangeIrResolution,
    /// Starting the images at the new resolution.
    ChangeIrResolutionEnable,
}

/// `steps` in the context `c`.
pub open spec fn within(c: ErrorContext, steps: Seq<Step>) -> Seq<Step> {
    seq![Step::Within(c)] + steps + seq![Step::End]
}

/// `steps` in the context `c`.
fn within_steps(c: ErrorContext, steps: Vec<Step>) -> (r: Vec<Step>)
    ensures
        r@ == within(c, steps@),
{
    let mut r: Vec<Step> = Vec::new();
    r.push(Step::Within(c));
    let mut steps = steps;
    r.append(&mut steps);
    r.push(Step::End);
    r
}

/// What a report read while waiting for a subcommand reply says.
#[derive(Copy, Clone, Debug)]
pub enum ReplyStatus {
    /// Not the reply: keep reading.
    Pending,
    /// The reply, acknowledged.
    Acked(SubcommandReply),
    /// The reply, refused by the controller.
    Nacked,
}

/// Why an operation failed.
#[derive(Copy, Clone, Debug)]
pub enum JoyConError {
    /// The HID product id is not one of a Joy-Con or Pro Controller.
    UnknownProduct(u16),
}

/// The state of the driver of one controller.
pub struct JoyCon {
    pub counter: u8,
    pub max_raw_gyro: i16,
    pub max_raw_accel: i16,
    pub left_stick_calib: LeftStickCalibration,
    pub right_stick_calib: RightStickCalibration,
    pub enable_ir_loop: bool,
    pub device_type: WhichController,
    pub factory_calibration: SensorCalibration,
    pub user_calibration: UserSensorCalibration,
    pub gyro_sens: GyroSens,
    pub accel_sens: AccSens,
}

/// A subcommand without arguments.
pub open spec fn subcmd0(id: SubcommandId) -> Step {
    Step::Subcmd(SubcommandRequest::of(id, Seq::empty()))
}

/// A subcommand with a one-byte argument.
pub open spec fn subcmd1(id: SubcommandId, b: u8) -> Step {
    Step::Subcmd(SubcommandRequest::of(id, seq![b]))
}

/// The subcommand selecting the input report mode.
pub open spec fn report_mode_step(id: InputReportId) -> Step {
    subcmd1(SubcommandId::SetInputReportMode, id.spec_to_u8())
}

/// The wait for a status of the MCU in `mode`.
pub open spec fn mcu_status_step(mode: McuCondition) -> Step {
    Step::WaitMcu(MCURequest::status(), mode)
}

/// The configuration of the IR mode as a command to the MCU.
pub open spec fn mcu_ir_step(mode: MCUIRMode) -> Step {
    Step::Subcmd(
        SubcommandRequest::of(
            SubcommandId::SetMCUConf,
            MCUCommand::of(
                MCUCommandId::ConfigureMCU,
                MCUSubCommandId::SetIRMode,
                seq![mode.spec_to_u8(), 0, 0, 0, 0, 0],
            ).spec_bytes(),
        ),
    )
}

/// The steps setting the camera in `mode` with `frags` fragments.
pub open spec fn ir_image_mode_steps(mode: MCUIRMode, frags: u8) -> Seq<Step> {
    seq![
        mcu_status_step(McuCondition::Status),
        Step::ConfigureIr(mode, frags),
    ] + within(
        ErrorContext::CheckSensorState,
        seq![Step::WaitMcu(MCURequest::ir(IRRequest::state_request()), McuCondition::IrMode(mode))],
    )
}

/// The steps starting the MCU in standby.
pub open spec fn enable_mcu_steps() -> Seq<Step> {
    seq![
        report_mode_step(InputReportId::StandardFullMCU),
        subcmd1(SubcommandId::SetMCUState, MCUMode::Standby.spec_to_u8()),
    ] + within(ErrorContext::EnableMcu, seq![mcu_status_step(McuCondition::Mode(MCUMode::Standby))])
}

/// The steps switching the MCU to IR mode.
pub open spec fn mcu_mode_ir_steps() -> Seq<Step> {
    seq![
        Step::Subcmd(
            SubcommandRequest::of(
                SubcommandId::SetMCUConf,
                MCUCommand::of(MCUCommandId::ConfigureMCU, MCUSubCommandId::SetMCUMode, seq![5u8]).spec_bytes(),
            ),
        ),
    ] + within(ErrorContext::SetMcuModeIr, seq![mcu_status_step(McuCondition::Mode(MCUMode::IR))]) + seq![
        Step::SetIrLoop(true),
    ]
}

/// The steps waiting for the camera to await its configuration.
pub open spec fn ir_wait_conf_steps() -> Seq<Step> {
    seq![
        mcu_status_step(McuCondition::Status),
        Step::ConfigureIr(MCUIRMode::IRSensorReset, 0),
    ] + within(
        ErrorContext::CheckSensorState,
        seq![
            Step::WaitMcu(
                MCURequest::ir(IRRequest::state_request()),
                McuCondition::IrMode(MCUIRMode::WaitingForConfigurationMaybe),
            ),
        ],
    )
}

/// The reports writing `regs`, nine at a time, with a pause between them.
pub open spec fn ir_register_steps(regs: Seq<Register>) -> Seq<Step>
    decreases regs.len(),
{
    if regs.len() == 0 {
        Seq::empty()
    } else if regs.len() <= 9 {
        seq![Step::Send(registers_report(regs))]
    } else {
        seq![Step::Send(registers_report(regs)), Step::Sleep(15)] + ir_register_steps(
            regs.subrange(9, regs.len() as int),
        )
    }
}

/// One report of registers, then the pause when some are left, then the rest.
pub proof fn lemma_register_steps_unfold(regs: Seq<Register>)
    requires
        regs.len() > 0,
    ensures
        regs.len() <= 9 ==> ir_register_steps(regs) == seq![Step::Send(registers_report(regs))]
            + ir_register_steps(Seq::<Register>::empty()),
        regs.len() > 9 ==> ir_register_steps(regs) == seq![Step::Send(registers_report(regs)), Step::Sleep(15)]
            + ir_register_steps(regs.subrange(9, regs.len() as int)),
{
    assert(ir_register_steps(Seq::<Register>::empty()) =~= Seq::<Step>::empty());
    assert(seq![Step::Send(registers_report(regs))] + Seq::<Step>::empty() =~= seq![Step::Send(registers_report(regs))]);
}

/// The report writing the first nine registers of `regs`.
#[verifier::opaque]
pub open spec fn registers_report(regs: Seq<Register>) -> OutputReport {
    OutputReport::of(
        crate::output::OutputReportId::RumbleAndSubcmd,
        RumbleData::idle(),
        SubcommandRequest::of(
            SubcommandId::SetMCUConf,
            crate::mcu::mcu_command_bytes(
                MCUCommandId::ConfigureIR,
                MCUSubCommandId::WriteIRRegisters,
                crate::output::first_registers(regs).spec_bytes(),
            ),
        ).spec_bytes(),
    )
}

/// The wait for the registers of page `page` of the camera.
pub open spec fn ir_registers_page_step(page: u8) -> Step {
    Step::WaitMcu(
        MCURequest::ir(
            (IRRequest { id: IRRequestId::ReadRegister, u: [0x01, page, 0, 0x6f] }),
        ),
        McuCondition::IrRegisters { page, offset: 0, nb_registers: 0x6f },
    )
}

/// The registers of page `page` from offset 0, in the content `u` of an MCU
/// report of 0x6f registers: value `j` at offset `j`.
pub open spec fn page_registers(page: u8, u: Seq<u8>) -> Seq<Register> {
    Seq::new(0x6f, |j: int| raw_reg(page, j as u8, u[4 + j]))
}

/// The registers of the first `n` pages, from the reports of their reads,
/// page after page.
pub open spec fn registers_of_pages(reports: Seq<MCUReport>, n: int) -> Seq<Register>
    decreases n,
{
    if n <= 0 {
        Seq::empty()
    } else {
        registers_of_pages(reports, n - 1) + page_registers((n - 1) as u8, reports[n - 1].u@)
    }
}

/// The configuration of the camera in `mode`, as a command to the camera,
/// with the firmware version reported in `status`.
pub open spec fn ir_configuration(mode: MCUIRMode, frags: u8, status: MCUStatus) -> SubcommandRequest {
    SubcommandRequest::of(
        SubcommandId::SetMCUConf,
        MCUCommand::of(
            MCUCommandId::ConfigureIR,
            MCUSubCommandId::SetIRMode,
            seq![
                mode.spec_to_u8(),
                frags,
                status.fw_major_version.0[0],
                status.fw_major_version.0[1],
                status.fw_minor_version.0[0],
                status.fw_minor_version.0[1],
            ],
        ).spec_bytes(),
    )
}

/// The configuration of the camera in `mode`, as a command to the MCU, with
/// no fragment and a null firmware version.
pub open spec fn mcu_ir_conf(mode: MCUIRMode) -> SubcommandRequest {
    SubcommandRequest::of(
        SubcommandId::SetMCUConf,
        MCUCommand::of(
            MCUCommandId::ConfigureMCU,
            MCUSubCommandId::SetIRMode,
            seq![mode.spec_to_u8(), 0, 0, 0, 0, 0],
        ).spec_bytes(),
    )
}

/// The command switching the MCU to `mode`.
pub open spec fn mcu_mode_subcmd(mode: MCUMode) -> SubcommandRequest {
    SubcommandRequest::of(
        SubcommandId::SetMCUConf,
        MCUCommand::of(MCUCommandId::ConfigureMCU, MCUSubCommandId::SetMCUMode, seq![mode.spec_to_u8()]).spec_bytes(),
    )
}

/// The steps changing the resolution of the camera.
pub open spec fn change_ir_resolution_steps(resolution: Resolution) -> Seq<Step> {
    within(ErrorContext::ChangeIrResolutionReset, ir_wait_conf_steps()) + within(
        ErrorContext::ChangeIrResolution,
        ir_register_steps(seq![reg_resolution(resolution), reg_finish()]),
    ) + within(
        ErrorContext::ChangeIrResolutionEnable,
        ir_image_mode_steps(MCUIRMode::ImageTransfer, resolution.spec_max_fragment_id()),
    )
}

/// The register setting the resolution.
pub open spec fn reg_resolution(resolution: Resolution) -> Register {
    reg(0x2e00, resolution.spec_to_u8())
}

/// The register applying the registers written before it.
pub open spec fn reg_finish() -> Register {
    reg(0x0700, 1)
}

/// The arguments of the unknown data sent to measure the pulse rate.
pub open spec fn pulse_rate_data() -> Seq<u8> {
    seq![3u8, 0, 0, 0, 0] + Seq::new(32, |i: int| 255u8) + seq![9u8]
}

/// The steps setting up the ring accessory.
pub open spec fn enable_ringcon_steps() -> Seq<Step> {
    seq![
        subcmd1(SubcommandId::SetMCUState, MCUMode::Standby.spec_to_u8()),
        Step::SubcmdUntilMcuMode(mcu_mode_subcmd(MCUMode::MaybeRingcon), MCUMode::MaybeRingcon),
        Step::Subcmd(mcu_ir_conf(MCUIRMode::IRSensorSleep)),
        subcmd0(SubcommandId::Unknown0x59),
        subcmd1(SubcommandId::SetIMUMode, IMUMode::MaybeRingcon.spec_to_u8()),
        Step::Subcmd(
            SubcommandRequest::of(
                SubcommandId::Unknown0x5c,
                seq![
                    6u8, 3, 37, 6, 0, 0, 0, 0, 236, 153, 172, 227, 28, 0, 0, 0, 105, 155, 22, 246, 93, 86, 0,
                    0, 4, 0, 0, 0, 0, 0, 0, 0, 144, 40, 161, 227, 28, 0,
                ],
            ),
        ),
        Step::Subcmd(SubcommandRequest::of(SubcommandId::Unknown0x5a, seq![4u8, 1, 1, 2] + crate::bytes::zeros(34))),
    ]
}

/// The steps putting the ring accessory away.
pub open spec fn disable_ringcon_steps() -> Seq<Step> {
    seq![
        subcmd0(SubcommandId::Unknown0x5b),
        subcmd1(SubcommandId::SetIMUMode, IMUMode::_Unknown0x02.spec_to_u8()),
        Step::Subcmd(
            SubcommandRequest::of(
                SubcommandId::Unknown0x5c,
                seq![
                    0u8, 0, 150, 227, 28, 0, 0, 0, 236, 153, 172, 227, 28, 0, 0, 0, 243, 130, 241, 89, 46,
                    89, 0, 0, 224, 88, 179, 227, 28, 0, 0, 0, 0, 242, 5, 42, 1, 0,
                ],
            ),
        ),
        Step::Subcmd(mcu_ir_conf(MCUIRMode::IRSensorReset)),
    ]
}

/// All fields of the driver but the packet counter and the relay flag are
/// unchanged from `a` to `b`.
pub open spec fn same_settings(a: JoyCon, b: JoyCon) -> bool {
    &&& a.max_raw_gyro == b.max_raw_gyro
    &&& a.max_raw_accel == b.max_raw_accel
    &&& a.left_stick_calib == b.left_stick_calib
    &&& a.right_stick_calib == b.right_stick_calib
    &&& a.device_type == b.device_type
    &&& a.factory_calibration == b.factory_calibration
    &&& a.user_calibration == b.user_calibration
    &&& a.gyro_sens == b.gyro_sens
    &&& a.accel_sens == b.accel_sens
}

/// Whether `report` carries the reply to `subcmd`.
pub open spec fn is_reply_to(subcmd: SubcommandRequest, report: InputReport) -> bool {
    report.spec_id() == Some(InputReportId::StandardAndSubcmd) && SubcommandId::spec_from_u8(report.raw[14])
        == Some(subcmd.id)
}

impl JoyCon {
    /// The driver of the controller with this HID product id, and the steps
    /// that prepare it: leave the shipment mode, then send standard reports.
    pub fn new(product_id: u16) -> (r: Result<(JoyCon, Vec<Step>), JoyConError>)
        ensures
            r is Err <==> WhichController::of_product_id(product_id) is None,
            r matches Ok((j, steps)) ==> {
                &&& Some(j.device_type) == WhichController::of_product_id(product_id)
                &&& j.counter == 0
                &&& !j.enable_ir_loop
                &&& j.max_raw_gyro == 0 && j.max_raw_accel == 0
                &&& j.gyro_sens == GyroSens::DPS2000 && j.accel_sens == AccSens::G8
                &&& steps@ == seq![
                    subcmd1(SubcommandId::SetShipmentMode, 0),
                    report_mode_step(InputReportId::StandardFull),
                ]
            },
            r matches Err(e) ==> e == JoyConError::UnknownProduct(product_id),
    {
        let device_type = match WhichController::from_product_id(product_id) {
            Some(d) => d,
            None => {
                return Err(JoyConError::UnknownProduct(product_id));
            },
        };
        let joycon = JoyCon {
            counter: 0,
            max_raw_gyro: 0,
            max_raw_accel: 0,
            left_stick_calib: LeftStickCalibration::default(),
            right_stick_calib: RightStickCalibration::default(),
            enable_ir_loop: false,
            device_type,
            factory_calibration: SensorCalibration::default(),
            user_calibration: UserSensorCalibration::default(),
            gyro_sens: GyroSens::default(),
            accel_sens: AccSens::default(),
        };
        let mut steps: Vec<Step> = Vec::new();
        steps.push(Step::Subcmd(SubcommandRequest::disable_shipment_mode()));
        let mut mode = joycon.set_report_mode_standard();
        steps.append(&mut mode);
        assert(steps@ =~= seq![
            subcmd1(SubcommandId::SetShipmentMode, 0),
            report_mode_step(InputReportId::StandardFull),
        ]);
        Ok((joycon, steps))
    }

    pub fn supports_ir(&self) -> (r: bool)
        ensures
            r == (self.device_type == WhichController::RightJoyCon),
    {
        match self.device_type {
            WhichController::RightJoyCon => true,
            _ => false,
        }
    }

    /// Stamps `report` with the packet counter, which then moves on, modulo 16.
    pub fn send(&mut self, report: &mut OutputReport)
        ensures
            final(report).id == old(report).id,
            final(report).raw@ == old(report).raw@.update(0, old(self).counter),
            final(self).counter == (old(self).counter + 1) % 16,
            final(self).enable_ir_loop == old(self).enable_ir_loop,
            same_settings(*old(self), *final(self)),
    {
        report.set_packet_counter(self.counter);
        self.counter = (self.counter % 16 + 1) % 16;
    }

    /// The report setting the rumble, stamped.
    pub fn set_rumble(&mut self, rumble: RumbleData) -> (r: OutputReport)
        ensures
            r.id == crate::output::OutputReportId::RumbleOnly,
            r.raw@ == OutputReport::of(crate::output::OutputReportId::RumbleOnly, rumble, Seq::empty()).raw@.update(
                0,
                old(self).counter,
            ),
            final(self).counter == (old(self).counter + 1) % 16,
            final(self).enable_ir_loop == old(self).enable_ir_loop,
            same_settings(*old(self), *final(self)),
    {
        let mut report = OutputReport::set_rumble(rumble);
        self.send(&mut report);
        report
    }

    /// Turns the relay of IR image fragments on or off.
    pub fn set_ir_loop(&mut self, enable: bool)
        ensures
            final(self).enable_ir_loop == enable,
            final(self).counter == old(self).counter,
            same_settings(*old(self), *final(self)),
    {
        self.enable_ir_loop = enable;
    }

    /// What a report read after sending `subcmd` says of its reply.
    pub fn subcmd_reply_status(subcmd: &SubcommandRequest, report: &InputReport) -> (r: ReplyStatus)
        ensures
            r is Pending <==> !is_reply_to(*subcmd, *report),
            r is Acked <==> is_reply_to(*subcmd, *report) && report.raw[13] >= 0x80,
            r is Nacked <==> is_reply_to(*subcmd, *report) && report.raw[13] < 0x80,
            r matches ReplyStatus::Acked(rep) ==> rep.ack.0 == report.raw[13] && rep.id.0 == report.raw[14]
                && rep.u@ == report.raw@.subrange(15, 362),
    {
        match report.subcmd_reply() {
            Some(reply) => {
                let same = match reply.id() {
                    Some(id) => id == subcmd.id(),
                    None => false,
                };
                if same {
                    if reply.ack().is_ok() {
                        ReplyStatus::Acked(reply)
                    } else {
                        ReplyStatus::Nacked
                    }
                } else {
                    ReplyStatus::Pending
                }
            },
            None => ReplyStatus::Pending,
        }
    }

    /// The factory and user calibrations of the IMU and the sticks, as read
    /// from the SPI flash.
    pub fn load_calibration(&self) -> (r: Vec<Step>)
        ensures
            r@ == seq![
                Step::Subcmd(SubcommandRequest::of(SubcommandId::SPIRead, seq![0x20u8, 0x60, 0, 0, 0x18])),
                Step::Subcmd(SubcommandRequest::of(SubcommandId::SPIRead, seq![0x26u8, 0x80, 0, 0, 0x1a])),
                Step::Subcmd(SubcommandRequest::of(SubcommandId::SPIRead, seq![0x3du8, 0x60, 0, 0, 0x12])),
            ],
    {
        let mut r: Vec<Step> = Vec::new();
        r.push(Step::Subcmd(SubcommandRequest::from(SPIReadRequest::new(SensorCalibration::range()))));
        r.push(Step::Subcmd(SubcommandRequest::from(SPIReadRequest::new(UserSensorCalibration::range()))));
        r.push(Step::Subcmd(SubcommandRequest::from(SPIReadRequest::new(SticksCalibration::range()))));
        proof {
            assert(u32_le_bytes(0x6020).push(0x18) =~= seq![0x20u8, 0x60, 0, 0, 0x18]);
            assert(u32_le_bytes(0x8026).push(0x1a) =~= seq![0x26u8, 0x80, 0, 0, 0x1a]);
            assert(u32_le_bytes(0x603d).push(0x12) =~= seq![0x3du8, 0x60, 0, 0, 0x12]);
        }
        assert(r@ =~= seq![
            Step::Subcmd(SubcommandRequest::of(SubcommandId::SPIRead, seq![0x20u8, 0x60, 0, 0, 0x18])),
            Step::Subcmd(SubcommandRequest::of(SubcommandId::SPIRead, seq![0x26u8, 0x80, 0, 0, 0x1a])),
            Step::Subcmd(SubcommandRequest::of(SubcommandId::SPIRead, seq![0x3du8, 0x60, 0, 0, 0x12])),
        ]);
        r
    }

    /// Keeps the calibrations read by the steps of `load_calibration`; the
    /// sticks use their factory calibration.
    pub fn set_calibration(
        &mut self,
        factory: SensorCalibration,
        user: UserSensorCalibration,
        sticks: SticksCalibration,
    )
        ensures
            final(self).factory_calibration == factory,
            final(self).user_calibration == user,
            final(self).left_stick_calib == sticks.left,
            final(self).right_stick_calib == sticks.right,
            final(self).counter == old(self).counter,
            final(self).enable_ir_loop == old(self).enable_ir_loop,
            final(self).device_type == old(self).device_type,
            final(self).gyro_sens == old(self).gyro_sens,
            final(self).accel_sens == old(self).accel_sens,
            final(self).max_raw_gyro == old(self).max_raw_gyro,
            final(self).max_raw_accel == old(self).max_raw_accel,
    {
        self.factory_calibration = factory;
        self.user_calibration = user;
        self.left_stick_calib = sticks.left;
        self.right_stick_calib = sticks.right;
    }

    /// Asks for the information on the device.
    pub fn get_dev_info(&self) -> (r: Step)
        ensures
            r == subcmd0(SubcommandId::RequestDeviceInfo),
    {
        Step::Subcmd(SubcommandRequest::from(SubcommandRequestEnum::RequestDeviceInfo(())))
    }

    pub fn set_home_light(&self, home_light: HomeLight) -> (r: Step)
        ensures
            r == Step::Subcmd(SubcommandRequest::of(SubcommandId::SetHomeLight, home_light.spec_bytes())),
    {
        Step::Subcmd(SubcommandRequest::from(home_light))
    }

    pub fn set_player_light(&self, player_lights: PlayerLights) -> (r: Step)
        ensures
            r == subcmd1(SubcommandId::SetPlayerLights, player_lights.0),
    {
        Step::Subcmd(SubcommandRequest::from(player_lights))
    }

    fn set_report_mode_standard(&self) -> (r: Vec<Step>)
        ensures
            r@ == seq![report_mode_step(InputReportId::StandardFull)],
    {
        let mut r: Vec<Step> = Vec::new();
        r.push(
            Step::Subcmd(
                SubcommandRequest::from(
                    SubcommandRequestEnum::SetInputReportMode(RawId::from(InputReportId::StandardFull)),
                ),
            ),
        );
        assert(r@ =~= seq![report_mode_step(InputReportId::StandardFull)]);
        r
    }

    /// The read of the value of `S` in the SPI flash.
    pub fn read_spi<S: SPI>(&self) -> (r: Step)
        requires
            S::spec_range().1 <= 0x1d,
        ensures
            r == Step::Subcmd(
                SubcommandRequest::of(SubcommandId::SPIRead, u32_le_bytes(S::spec_range().0).push(S::spec_range().1)),
            ),
    {
        Step::Subcmd(SubcommandRequest::from(SPIReadRequest::new(S::range())))
    }

    /// The read of `range` of the SPI flash.
    pub fn read_spi_raw(&self, range: SPIRange) -> (r: Step)
        requires
            range.1 <= 0x1d,
        ensures
            r == Step::Subcmd(SubcommandRequest::of(SubcommandId::SPIRead, u32_le_bytes(range.0).push(range.1))),
    {
        Step::Subcmd(SubcommandRequest::from(SPIReadRequest::new(range)))
    }

    /// The value of `S` in the reply to its read.
    pub fn spi_value<S: SPI>(reply: &SubcommandReply) -> (r: Result<S, WrongRangeError>)
        requires
            reply.id.spec_try_into() == Some(SubcommandId::SPIRead),
            SPIRange(le_u32(reply.u@.subrange(0, 4)), reply.u[4]) == S::spec_range() ==> S::spec_data_ok(
                reply.u@.subrange(5, 34),
            ),
        ensures
            r == (if SPIRange(le_u32(reply.u@.subrange(0, 4)), reply.u[4]) == S::spec_range() {
                Ok(S::spec_from_data(reply.u@.subrange(5, 34)))
            } else {
                Err(
                    WrongRangeError {
                        expected: S::spec_range(),
                        got: SPIRange(le_u32(reply.u@.subrange(0, 4)), reply.u[4]),
                    },
                )
            }),
    {
        let result = reply.spi_read_result().unwrap();
        S::try_from(result)
    }

    /// The data in the reply to the read of `range`.
    pub fn spi_raw(range: SPIRange, reply: &SubcommandReply) -> (r: [u8; 0x1D])
        requires
            reply.id.spec_try_into() == Some(SubcommandId::SPIRead),
            SPIRange(le_u32(reply.u@.subrange(0, 4)), reply.u[4]) == range,
        ensures
            r@ == reply.u@.subrange(5, 34),
    {
        let result = reply.spi_read_result().unwrap();
        result.raw()
    }

    /// The write of `value` to its range of the SPI flash.
    pub fn write_spi(&self, request: SPIWriteRequest) -> (r: Step)
        ensures
            r == Step::Subcmd(SubcommandRequest::of(SubcommandId::SPIWrite, request.spec_bytes())),
    {
        Step::Subcmd(SubcommandRequest::from(request))
    }

    /// Whether the write acknowledged by `reply` succeeded.
    pub fn spi_write_success(reply: &SubcommandReply) -> (r: bool)
        requires
            reply.id.spec_try_into() == Some(SubcommandId::SPIWrite),
        ensures
            r == (reply.ack.0 >= 0x80 && reply.u[0] == 0),
    {
        reply.is_spi_write_success().unwrap()
    }
}

/// MCU handling (infrared camera and NFC reader).
impl JoyCon {
    /// Starts the camera at `resolution`.
    pub fn enable_ir(&self, resolution: Resolution) -> (r: Vec<Step>)
        ensures
            r@ == enable_mcu_steps() + mcu_mode_ir_steps() + change_ir_resolution_steps(resolution),
    {
        let mut r = self.enable_mcu();
        let mut b = self.set_mcu_mode_ir();
        let mut c = self.change_ir_resolution(resolution);
        r.append(&mut b);
        r.append(&mut c);
        r
    }

    /// Stops the relay, goes back to standard reports and suspends the MCU.
    pub fn disable_mcu(&self) -> (r: Vec<Step>)
        ensures
            r@ == seq![
                Step::SetIrLoop(false),
                report_mode_step(InputReportId::StandardFull),
                subcmd1(SubcommandId::SetMCUState, MCUMode::Suspend.spec_to_u8()),
            ],
    {
        let mut r: Vec<Step> = Vec::new();
        r.push(Step::SetIrLoop(false));
        let mut m = self.set_report_mode_standard();
        r.append(&mut m);
        r.push(
            Step::Subcmd(SubcommandRequest::from(SubcommandRequestEnum::SetMCUState(RawId::from(MCUMode::Suspend)))),
        );
        assert(r@ =~= seq![
            Step::SetIrLoop(false),
            report_mode_step(InputReportId::StandardFull),
            subcmd1(SubcommandId::SetMCUState, MCUMode::Suspend.spec_to_u8()),
        ]);
        r
    }

    /// Sets the camera to measure the pulse rate.
    pub fn enable_pulserate(&self) -> (r: Vec<Step>)
        ensures
            r@ == enable_mcu_steps() + mcu_mode_ir_steps() + ir_image_mode_steps(MCUIRMode::PulseRate, 1)
                + seq![Step::Subcmd(SubcommandRequest::of(SubcommandId::SetUnknownData, pulse_rate_data()))],
    {
        let mut r = self.enable_mcu();
        let mut b = self.set_mcu_mode_ir();
        let mut c = self.set_ir_image_mode(MCUIRMode::PulseRate, 1);
        r.append(&mut b);
        r.append(&mut c);
        let data: [u8; 38] = [
            3, 0, 0, 0, 0, 255, 255, 255, 255, 255, 255, 255, 255, 255, 255, 255, 255, 255, 255,
            255, 255, 255, 255, 255, 255, 255, 255, 255, 255, 255, 255, 255, 255, 255, 255, 255,
            255, 9,
        ];
        assert(data@ =~= pulse_rate_data());
        r.push(Step::Subcmd(SubcommandRequest::from(SubcommandRequestEnum::SetUnknownData(data))));
        r
    }

    fn enable_mcu(&self) -> (r: Vec<Step>)
        ensures
            r@ == enable_mcu_steps(),
    {
        let mut r: Vec<Step> = Vec::new();
        r.push(
            Step::Subcmd(
                SubcommandRequest::from(
                    SubcommandRequestEnum::SetInputReportMode(RawId::from(InputReportId::StandardFullMCU)),
                ),
            ),
        );
        r.push(
            Step::Subcmd(SubcommandRequest::from(SubcommandRequestEnum::SetMCUState(RawId::from(MCUMode::Standby)))),
        );
        let mut wait: Vec<Step> = Vec::new();
        wait.push(Step::WaitMcu(MCURequest::get_mcu_status(), McuCondition::Mode(MCUMode::Standby)));
        let mut w = within_steps(ErrorContext::EnableMcu, wait);
        r.append(&mut w);
        assert(r@ =~= enable_mcu_steps());
        r
    }

    fn set_mcu_mode_ir(&self) -> (r: Vec<Step>)
        ensures
            r@ == mcu_mode_ir_steps(),
    {
        let mut r: Vec<Step> = Vec::new();
        r.push(Step::Subcmd(SubcommandRequest::from(MCUCommand::set_mcu_mode(MCUMode::IR))));
        let mut wait: Vec<Step> = Vec::new();
        wait.push(Step::WaitMcu(MCURequest::get_mcu_status(), McuCondition::Mode(MCUMode::IR)));
        let mut w = within_steps(ErrorContext::SetMcuModeIr, wait);
        r.append(&mut w);
        r.push(Step::SetIrLoop(true));
        assert(r@ =~= mcu_mode_ir_steps());
        r
    }

    /// Sets the camera in `ir_mode`, sending `frags` fragments per image.
    pub fn set_ir_image_mode(&self, ir_mode: MCUIRMode, frags: u8) -> (r: Vec<Step>)
        ensures
            r@ == ir_image_mode_steps(ir_mode, frags),
    {
        let mut r: Vec<Step> = Vec::new();
        r.push(Step::WaitMcu(MCURequest::get_mcu_status(), McuCondition::Status));
        r.push(Step::ConfigureIr(ir_mode, frags));
        let mut wait: Vec<Step> = Vec::new();
        wait.push(Step::WaitMcu(MCURequest::from_ir_request(IRRequest::get_state()), McuCondition::IrMode(ir_mode)));
        let mut w = within_steps(ErrorContext::CheckSensorState, wait);
        r.append(&mut w);
        assert(r@ =~= ir_image_mode_steps(ir_mode, frags));
        r
    }

    /// The configuration of the camera that a `ConfigureIr` step sends, with
    /// the firmware version of the last status of the MCU.
    pub fn configure_ir(ir_mode: MCUIRMode, frags: u8, status: &MCUStatus) -> (r: SubcommandRequest)
        ensures
            r == ir_configuration(ir_mode, frags, *status),
    {
        let conf = MCUIRModeData {
            ir_mode: RawId::from(ir_mode),
            no_of_frags: frags,
            mcu_fw_version: (status.fw_major_version, status.fw_minor_version),
        };
        let cmd = MCUCommand::configure_ir_ir(conf);
        assert(conf.spec_bytes() =~= seq![
            ir_mode.spec_to_u8(),
            frags,
            status.fw_major_version.0[0],
            status.fw_major_version.0[1],
            status.fw_minor_version.0[0],
            status.fw_minor_version.0[1],
        ]);
        SubcommandRequest::from(cmd)
    }

    /// Reads the five pages of registers of the camera: for each page, a
    /// wait for its registers in its own context.
    pub fn get_ir_registers(&self) -> (r: Vec<Step>)
        ensures
            r@.len() == 15,
            forall|page: int|
                0 <= page < 5 ==> #[trigger] r@.subrange(3 * page, 3 * page + 3) == within(
                    ErrorContext::GetIrRegistersSlice,
                    seq![ir_registers_page_step(page as u8)],
                ),
    {
        let mut r: Vec<Step> = Vec::new();
        let mut page: u8 = 0;
        while page <= 4
            invariant
                page <= 5,
                r@.len() == 3 * page,
                forall|p: int|
                    0 <= p < page ==> #[trigger] r@.subrange(3 * p, 3 * p + 3) == within(
                        ErrorContext::GetIrRegistersSlice,
                        seq![ir_registers_page_step(p as u8)],
                    ),
            decreases 5 - page,
        {
            let request = IRRequest::from(IRReadRegisters { unknown_0x01: 0x01, page, offset: 0, nb_registers: 0x6f });
            let ghost before = r@;
            r.push(Step::Within(ErrorContext::GetIrRegistersSlice));
            r.push(
                Step::WaitMcu(
                    MCURequest::from_ir_request(request),
                    McuCondition::IrRegisters { page, offset: 0, nb_registers: 0x6f },
                ),
            );
            r.push(Step::End);
            assert forall|p: int| 0 <= p < page + 1 implies #[trigger] r@.subrange(3 * p, 3 * p + 3) == within(
                ErrorContext::GetIrRegistersSlice,
                seq![ir_registers_page_step(p as u8)],
            ) by {
                if p < page {
                    assert(r@.subrange(3 * p, 3 * p + 3) =~= before.subrange(3 * p, 3 * p + 3));
                } else {
                    assert(r@.subrange(3 * p, 3 * p + 3) =~= within(
                        ErrorContext::GetIrRegistersSlice,
                        seq![ir_registers_page_step(p as u8)],
                    ));
                }
            }
            page += 1;
        }
        r
    }

    /// The registers of the camera, from the MCU reports that the waits of
    /// [`JoyCon::get_ir_registers`] gave, one per page in order: the
    /// registers of each page decoded, page after page.
    pub fn ir_registers(reports: &[MCUReport]) -> (r: Vec<Register>)
        requires
            reports@.len() == 5,
            forall|p: int|
                0 <= p < 5 ==> (McuCondition::IrRegisters { page: p as u8, offset: 0, nb_registers: 0x6f }).holds(
                    #[trigger] reports@[p],
                ),
        ensures
            r@ == registers_of_pages(reports@, 5),
    {
        let mut r: Vec<Register> = Vec::new();
        let mut p: usize = 0;
        while p < 5
            invariant
                p <= 5,
                reports@.len() == 5,
                forall|q: int|
                    0 <= q < 5 ==> (McuCondition::IrRegisters { page: q as u8, offset: 0, nb_registers: 0x6f }).holds(
                        #[trigger] reports@[q],
                    ),
                r@ == registers_of_pages(reports@, p as int),
            decreases 5 - p,
        {
            let report = reports[p];
            assert((McuCondition::IrRegisters { page: p as u8, offset: 0, nb_registers: 0x6f }).holds(reports@[p as int]));
            let slice = report.as_ir_registers().unwrap();
            let values: [u8; 0x6f] = sub_array(&slice.values, 0);
            let mut part = Register::decode_raw(slice.page, slice.offset, &values);
            let ghost before = r@;
            assert(part@ =~= page_registers(p as u8, reports@[p as int].u@)) by {
                assert forall|j: int| 0 <= j < 0x6f implies #[trigger] part@[j] == page_registers(
                    p as u8,
                    reports@[p as int].u@,
                )[j] by {
                    assert(values@[j] == slice.values@[j]);
                    assert(slice.values@[j] == report.u@[4 + j]);
                }
            }
            let ghost added = part@;
            r.append(&mut part);
            assert(r@ =~= before + added);
            p += 1;
        }
        r
    }

    /// Writes `regs` to the camera, nine at a time.
    pub fn set_ir_registers(&self, regs: &[Register]) -> (r: Vec<Step>)
        ensures
            r@ == ir_register_steps(regs@),
    {
        let mut r: Vec<Step> = Vec::new();
        let mut rest = regs;
        while rest.len() > 0
            invariant
                r@ + ir_register_steps(rest@) == ir_register_steps(regs@),
            decreases rest@.len(),
        {
            let (report, remaining) = OutputReport::set_registers(rest);
            assert(report == registers_report(rest@)) by {
                reveal(registers_report);
            }
            let ghost before = r@;
            let ghost head = if remaining@.len() > 0 {
                seq![Step::Send(report), Step::Sleep(15)]
            } else {
                seq![Step::Send(report)]
            };
            r.push(Step::Send(report));
            if remaining.len() > 0 {
                r.push(Step::Sleep(15));
            }
            proof {
                lemma_register_steps_unfold(rest@);
                assert(r@ =~= before + head);
                assert(ir_register_steps(rest@) == head + ir_register_steps(remaining@));
                assert((before + head) + ir_register_steps(remaining@) =~= before + (head + ir_register_steps(
                    remaining@,
                )));
            }
            rest = remaining;
        }
        assert(r@ + ir_register_steps(rest@) =~= r@);
        r
    }

    /// Changes the resolution of the images of the camera.
    pub fn change_ir_resolution(&self, resolution: Resolution) -> (r: Vec<Step>)
        ensures
            r@ == change_ir_resolution_steps(resolution),
    {
        let reset = self.set_ir_wait_conf();
        let mut r = within_steps(ErrorContext::ChangeIrResolutionReset, reset);
        let regs = [Register::resolution(resolution), Register::finish()];
        let write = self.set_ir_registers(&regs);
        assert(regs@ =~= seq![reg_resolution(resolution), reg_finish()]);
        let mut b = within_steps(ErrorContext::ChangeIrResolution, write);
        let enable = self.set_ir_image_mode(MCUIRMode::ImageTransfer, resolution.max_fragment_id());
        let mut c = within_steps(ErrorContext::ChangeIrResolutionEnable, enable);
        r.append(&mut b);
        r.append(&mut c);
        r
    }

    fn set_ir_wait_conf(&self) -> (r: Vec<Step>)
        ensures
            r@ == ir_wait_conf_steps(),
    {
        let mut r: Vec<Step> = Vec::new();
        r.push(Step::WaitMcu(MCURequest::get_mcu_status(), McuCondition::Status));
        r.push(Step::ConfigureIr(MCUIRMode::IRSensorReset, 0));
        let mut wait: Vec<Step> = Vec::new();
        wait.push(
            Step::WaitMcu(
                MCURequest::from_ir_request(IRRequest::get_state()),
                McuCondition::IrMode(MCUIRMode::WaitingForConfigurationMaybe),
            ),
        );
        let mut w = within_steps(ErrorContext::CheckSensorState, wait);
        r.append(&mut w);
        assert(r@ =~= ir_wait_conf_steps());
        r
    }

    /// The report forwarding `mcu_subcmd` to the MCU, stamped.
    pub fn send_mcu_subcmd(&mut self, mcu_subcmd: MCURequest) -> (r: OutputReport)
        ensures
            r.id == crate::output::OutputReportId::RequestMCUData,
            r.raw@ == OutputReport::of(
                crate::output::OutputReportId::RequestMCUData,
                RumbleData::idle(),
                mcu_subcmd.spec_bytes(),
            ).raw@.update(0, old(self).counter),
            final(self).counter == (old(self).counter + 1) % 16,
            final(self).enable_ir_loop == old(self).enable_ir_loop,
            same_settings(*old(self), *final(self)),
    {
        let mut report = OutputReport::from(mcu_subcmd);
        self.send(&mut report);
        report
    }

    /// Waits for a status of the MCU in `mode`.
    pub fn wait_mcu_status(&self, mode: MCUMode) -> (r: Step)
        ensures
            r == mcu_status_step(McuCondition::Mode(mode)),
    {
        Step::WaitMcu(MCURequest::get_mcu_status(), McuCondition::Mode(mode))
    }
}

/// IMU handling (gyroscope and accelerometer).
impl JoyCon {
    pub fn enable_imu(&self) -> (r: Step)
        ensures
            r == subcmd1(SubcommandId::SetIMUMode, IMUMode::GyroAccel.spec_to_u8()),
    {
        Step::Subcmd(SubcommandRequest::from(SubcommandRequestEnum::SetIMUMode(RawId::from(IMUMode::GyroAccel))))
    }

    /// Sets the sensitivities to 2000 degrees per second and 8 G.
    pub fn set_imu_sens(&self) -> (r: Step)
        ensures
            r == Step::Subcmd(
                SubcommandRequest::of(
                    SubcommandId::SetIMUSens,
                    seq![
                        GyroSens::DPS2000.spec_to_u8(),
                        AccSens::G8.spec_to_u8(),
                        crate::imu::GyroPerfRate::Hz208.spec_to_u8(),
                        crate::imu::AccAntiAliasing::Hz100.spec_to_u8(),
                    ],
                ),
            ),
    {
        let gyro_sens = GyroSens::DPS2000;
        let accel_sens = AccSens::G8;
        let default = Sensitivity::default();
        let sens = Sensitivity { gyro_sens: RawId::from(gyro_sens), acc_sens: RawId::from(accel_sens), ..default };
        assert(sens.spec_bytes() =~= seq![
            GyroSens::DPS2000.spec_to_u8(),
            AccSens::G8.spec_to_u8(),
            crate::imu::GyroPerfRate::Hz208.spec_to_u8(),
            crate::imu::AccAntiAliasing::Hz100.spec_to_u8(),
        ]);
        Step::Subcmd(SubcommandRequest::from(sens))
    }
}

/// Ring accessory handling.
impl JoyCon {
    pub fn enable_ringcon(&self) -> (r: Vec<Step>)
        ensures
            r@ == enable_ringcon_steps(),
    {
        let mut r: Vec<Step> = Vec::new();
        r.push(
            Step::Subcmd(SubcommandRequest::from(SubcommandRequestEnum::SetMCUState(RawId::from(MCUMode::Standby)))),
        );
        r.push(
            Step::SubcmdUntilMcuMode(
                SubcommandRequest::from(MCUCommand::set_mcu_mode(MCUMode::MaybeRingcon)),
                MCUMode::MaybeRingcon,
            ),
        );
        let conf = MCUIRModeData {
            ir_mode: RawId::from(MCUIRMode::IRSensorSleep),
            no_of_frags: 0,
            mcu_fw_version: (U16LE([0, 0]), U16LE([0, 0])),
        };
        assert(conf.spec_bytes() =~= seq![MCUIRMode::IRSensorSleep.spec_to_u8(), 0, 0, 0, 0, 0]);
        r.push(Step::Subcmd(SubcommandRequest::from(MCUCommand::configure_mcu_ir(conf))));
        r.push(Step::Subcmd(SubcommandRequest::subcmd_0x59()));
        r.push(
            Step::Subcmd(
                SubcommandRequest::from(SubcommandRequestEnum::SetIMUMode(RawId::from(IMUMode::MaybeRingcon))),
            ),
        );
        let s6 = SubcommandRequest::subcmd_0x5c_6();
        proof {
            let p = seq![
                6u8, 3, 37, 6, 0, 0, 0, 0, 236, 153, 172, 227, 28, 0, 0, 0, 105, 155, 22, 246, 93, 86, 0,
                0, 4, 0, 0, 0, 0, 0, 0, 0, 144, 40, 161, 227, 28, 0,
            ];
            assert(padded(p, 38) =~= p);
            assert(s6.u =~= array38(padded(p, 38)));
        }
        r.push(Step::Subcmd(s6));
        r.push(Step::Subcmd(SubcommandRequest::subcmd_0x5a()));
        assert(r@ =~= enable_ringcon_steps());
        r
    }

    /// Whether the reply to a command switching the MCU carries a status of
    /// the MCU in `mode`; `None` when it carries no status.
    pub fn mcu_mode_reached(reply: &SubcommandReply, mode: MCUMode) -> (r: Option<bool>)
        ensures
            reply.id.spec_try_into() != Some(SubcommandId::SetMCUConf) || MCUReportId::spec_from_u8(reply.u[0])
                != Some(MCUReportId::StateReport) ==> r is None,
            reply.id.spec_try_into() == Some(SubcommandId::SetMCUConf) && MCUReportId::spec_from_u8(reply.u[0])
                == Some(MCUReportId::StateReport) ==> r == Some(MCUMode::spec_from_u8(reply.u[7]) == Some(mode)),
    {
        match reply.mcu_report() {
            Some(report) => match report.as_status() {
                Some(status) => Some(status.state.is(mode)),
                None => None,
            },
            None => None,
        }
    }

    pub fn disable_ringcon(&self) -> (r: Vec<Step>)
        ensures
            r@ == disable_ringcon_steps(),
    {
        let mut r: Vec<Step> = Vec::new();
        r.push(Step::Subcmd(SubcommandRequest::subcmd_0x5b()));
        r.push(
            Step::Subcmd(
                SubcommandRequest::from(SubcommandRequestEnum::SetIMUMode(RawId::from(IMUMode::_Unknown0x02))),
            ),
        );
        let s0 = SubcommandRequest::subcmd_0x5c_0();
        proof {
            let p = seq![
                0u8, 0, 150, 227, 28, 0, 0, 0, 236, 153, 172, 227, 28, 0, 0, 0, 243, 130, 241, 89, 46,
                89, 0, 0, 224, 88, 179, 227, 28, 0, 0, 0, 0, 242, 5, 42, 1, 0,
            ];
            assert(padded(p, 38) =~= p);
            assert(s0.u =~= array38(padded(p, 38)));
        }
        r.push(Step::Subcmd(s0));
        let conf = MCUIRModeData {
            ir_mode: RawId::from(MCUIRMode::IRSensorReset),
            no_of_frags: 0,
            mcu_fw_version: (U16LE([0, 0]), U16LE([0, 0])),
        };
        assert(conf.spec_bytes() =~= seq![MCUIRMode::IRSensorReset.spec_to_u8(), 0, 0, 0, 0, 0]);
        r.push(Step::Subcmd(SubcommandRequest::from(MCUCommand::configure_mcu_ir(conf))));
        assert(r@ =~= disable_ringcon_steps());
        r
    }

    /// Waits for a report of the MCU that is not about its start.
    pub fn mcu_wait_not_busy(&self) -> (r: Step)
        ensures
            r == Step::WaitReport(McuCondition::NotBusy),
    {
        Step::WaitReport(McuCondition::NotBusy)
    }
}


impl JoyCon {
    /// Asks for the standard reports with the reports of the MCU.
    pub fn set_report_mode_mcu(&self) -> (r: Step)
        ensures
            r == report_mode_step(InputReportId::StandardFullMCU),
    {
        Step::Subcmd(
            SubcommandRequest::from(SubcommandRequestEnum::SetInputReportMode(RawId::from(InputReportId::StandardFullMCU))),
        )
    }

    /// The steps for a command of the camera viewer; `None` to stop.
    pub fn handle_cmd(&self, cmd: JoyconCmd) -> (r: Option<Vec<Step>>)
        requires
            cmd matches JoyconCmd::SetRegister(reg) ==> reg.address != reg_resolution(Resolution::R320x240).address,
            cmd matches JoyconCmd::SetRegisters(regs) ==> regs[0].address != reg_resolution(
                Resolution::R320x240,
            ).address && regs[1].address != reg_resolution(Resolution::R320x240).address,
        ensures
            cmd is Stop <==> r is None,
            cmd matches JoyconCmd::SetResolution(res) ==> r matches Some(steps) && steps@
                == change_ir_resolution_steps(res),
            cmd matches JoyconCmd::SetRegister(reg) ==> r matches Some(steps) && steps@ == ir_register_steps(
                seq![reg, reg_finish()],
            ),
            cmd matches JoyconCmd::SetRegisters(regs) ==> r matches Some(steps) && steps@ == ir_register_steps(
                seq![regs[0], regs[1], reg_finish()],
            ),
    {
        match cmd {
            JoyconCmd::Stop => None,
            JoyconCmd::SetResolution(resolution) => Some(self.change_ir_resolution(resolution)),
            JoyconCmd::SetRegister(register) => {
                let regs = [register, Register::finish()];
                assert(regs@ =~= seq![register, reg_finish()]);
                Some(self.set_ir_registers(&regs))
            },
            JoyconCmd::SetRegisters(rs) => {
                let regs = [rs[0], rs[1], Register::finish()];
                assert(regs@ =~= seq![rs[0], rs[1], reg_finish()]);
                Some(self.set_ir_registers(&regs))
            },
        }
    }
}

/// A command of the camera viewer to the thread driving the controller.
#[derive(Copy, Clone, Debug)]
pub enum JoyconCmd {
    Stop,
    SetResolution(Resolution),
    SetRegister(Register),
    SetRegisters([Register; 2]),
}

/// The player lights showing the battery: one light per level from low to
/// full, the last blinking when the battery is below low.
pub fn battery_player_lights(level: BatteryLevel) -> (r: PlayerLights)
    ensures
        ({
            let l = level.spec_to_u8();
            r.0 == (if l >= 4 { 1int } else { 0 }) + (if l >= 3 { 2int } else { 0 }) + (if l >= 2 { 4int } else { 0 })
                + (if l >= 2 { 8int } else { 128 })
        }),
{
    let l = level.level();
    PlayerLights::new(
        PlayerLight::from(l >= 4),
        PlayerLight::from(l >= 3),
        PlayerLight::from(l >= 2),
        if l >= 2 {
            PlayerLight::On
        } else {
            PlayerLight::Blinking
        },
    )
}

/// A HID device that is a Joy-Con or a Pro Controller, found by
/// [`scan_for_joycons`]: its position in the list scanned and its ids.
#[derive(Copy, Clone, Debug)]
pub struct DetectedJoyConInfo {
    pub index: usize,
    pub vendor_id: u16,
    pub product_id: u16,
}

impl DetectedJoyConInfo {
    /// Which controller the device is.
    pub fn device_type(&self) -> (r: Result<WhichController, JoyConError>)
        ensures
            r is Ok <==> WhichController::of_product_id(self.product_id) is Some,
            r matches Ok(w) ==> WhichController::of_product_id(self.product_id) == Some(w),
            r matches Err(e) ==> e == JoyConError::UnknownProduct(self.product_id),
    {
        match WhichController::from_product_id(self.product_id) {
            Some(w) => Ok(w),
            None => Err(JoyConError::UnknownProduct(self.product_id)),
        }
    }
}

/// Whether a device with these ids is a Joy-Con or a Pro Controller.
pub open spec fn is_joycon(vendor_id: u16, product_id: u16) -> bool {
    vendor_id == crate::common::NINTENDO_VENDOR_ID && (product_id == crate::common::JOYCON_L_BT || product_id
        == crate::common::JOYCON_R_BT || product_id == crate::common::PRO_CONTROLLER)
}

/// The devices of the list, given by vendor and product ids, that are
/// Joy-Cons or Pro Controllers, in order.
pub fn scan_for_joycons(devices: &[(u16, u16)]) -> (r: Vec<DetectedJoyConInfo>)
    ensures
        forall|k: int| 0 <= k < r@.len() ==> {
            &&& #[trigger] r@[k].index < devices@.len()
            &&& r@[k].vendor_id == devices@[r@[k].index as int].0
            &&& r@[k].product_id == devices@[r@[k].index as int].1
            &&& is_joycon(r@[k].vendor_id, r@[k].product_id)
        },
        forall|k: int, l: int| 0 <= k < l < r@.len() ==> #[trigger] r@[k].index < #[trigger] r@[l].index,
        forall|d: int| 0 <= d < devices@.len() && is_joycon(devices@[d].0, devices@[d].1) ==> exists|k: int|
            0 <= k < r@.len() && #[trigger] r@[k].index == d,
{
    let mut r: Vec<DetectedJoyConInfo> = Vec::new();
    let mut i: usize = 0;
    while i < devices.len()
        invariant
            i <= devices@.len(),
            forall|k: int| 0 <= k < r@.len() ==> {
                &&& #[trigger] r@[k].index < i
                &&& r@[k].vendor_id == devices@[r@[k].index as int].0
                &&& r@[k].product_id == devices@[r@[k].index as int].1
                &&& is_joycon(r@[k].vendor_id, r@[k].product_id)
            },
            forall|k: int, l: int| 0 <= k < l < r@.len() ==> #[trigger] r@[k].index < #[trigger] r@[l].index,
            forall|d: int| 0 <= d < i && is_joycon(devices@[d].0, devices@[d].1) ==> exists|k: int|
                0 <= k < r@.len() && #[trigger] r@[k].index == d,
        decreases devices@.len() - i,
    {
        let (vendor_id, product_id) = devices[i];
        if vendor_id == crate::common::NINTENDO_VENDOR_ID && (product_id == crate::common::JOYCON_L_BT
            || product_id == crate::common::JOYCON_R_BT || product_id == crate::common::PRO_CONTROLLER) {
            let ghost before = r@;
            r.push(DetectedJoyConInfo { index: i, vendor_id, product_id });
            proof {
                assert forall|d: int| 0 <= d < i + 1 && is_joycon(devices@[d].0, devices@[d].1) implies exists|k: int|
                    0 <= k < r@.len() && #[trigger] r@[k].index == d by {
                    if d == i {
                        assert(r@[before.len() as int].index == d);
                    } else {
                        let k = choose|k: int| 0 <= k < before.len() && #[trigger] before[k].index == d;
                        assert(r@[k].index == d);
                    }
                }
            }
        }
        i += 1;
    }
    r
}
} // verus!
