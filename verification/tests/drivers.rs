use joy::accessory::{AccessoryCommand, AccessoryResponse, Error};
use joy::input::{Ack, SubcommandReply};
use joy::spi::{SticksCalibration, WrongRangeError, SPIRange};
use joy::joytk::SticksRange;
use joy::input::{DeviceInfo, FirmwareVersion, MACAddress, UseSPIColors};
use joy::common::{SubcommandId, JOYCON_R_BT, NINTENDO_VENDOR_ID, PRO_CONTROLLER};
use joy::dualshock::{self, ConnectionType, Dpad, DS4Driver, FingerCoord, Stick};
use joy::gamepad::{joycon_keys, JoyKey, KeyStatus};
use joy::hid::{
    battery_player_lights, scan_for_joycons, ErrorContext, JoyCon, JoyConError, JoyconCmd, McuCondition, ReplyStatus,
    Step,
};
use joy::wait::{WaitOutcome, Waiting};
use joy::input::{BatteryLevel, ButtonsStatus, InputReport, LeftButtons, MiddleButtons, RightButtons, WhichController};
use joy::joytk::{is_mac, parse_color, HexError, MacError};
use joy::mcu::ir_register::Resolution;
use joy::mcu::{MCUMode, MCUReport};
use joy::output::{OutputReport, SubcommandRequest};
use joy::spi::Color;
use joy::spi::SPI;

#[test]
fn joycon_new_plans_setup() {
    let (joycon, steps) = JoyCon::new(JOYCON_R_BT).unwrap();
    assert!(joycon.supports_ir());
    assert_eq!(2, steps.len());
    match steps[0] {
        Step::Subcmd(s) => {
            assert_eq!(SubcommandId::SetShipmentMode, s.id);
            assert_eq!(0, s.u[0]);
        }
        _ => panic!("not a subcommand"),
    }
    match steps[1] {
        Step::Subcmd(s) => {
            assert_eq!(SubcommandId::SetInputReportMode, s.id);
            assert_eq!(0x30, s.u[0]);
        }
        _ => panic!("not a subcommand"),
    }
    assert!(matches!(JoyCon::new(0x1234), Err(JoyConError::UnknownProduct(0x1234))));
    let (pro, _) = JoyCon::new(PRO_CONTROLLER).unwrap();
    assert!(!pro.supports_ir());
    assert_eq!(WhichController::ProController, pro.device_type);
}

#[test]
fn packet_counter_cycles() {
    let (mut joycon, _) = JoyCon::new(JOYCON_R_BT).unwrap();
    let mut counters = vec![];
    for _ in 0..18 {
        let mut report = OutputReport::from(SubcommandRequest::disable_shipment_mode());
        joycon.send(&mut report);
        counters.push(report.as_bytes()[1]);
    }
    assert_eq!(vec![0u8, 1, 2, 3, 4, 5, 6, 7, 8, 9, 10, 11, 12, 13, 14, 15, 0, 1], counters);
}

#[test]
fn subcmd_reply_status_matches_id() {
    let subcmd = SubcommandRequest::disable_shipment_mode();
    let mut raw = [0u8; 362];
    raw[0] = 0x21;
    raw[13] = 0x80;
    raw[14] = 0x08;
    raw[15] = 0x42;
    match JoyCon::subcmd_reply_status(&subcmd, &InputReport::from_bytes(raw)) {
        ReplyStatus::Acked(reply) => assert_eq!(0x42, reply.u[0]),
        _ => panic!("not acked"),
    }
    raw[13] = 0x00;
    assert!(matches!(JoyCon::subcmd_reply_status(&subcmd, &InputReport::from_bytes(raw)), ReplyStatus::Nacked));
    raw[14] = 0x10;
    assert!(matches!(JoyCon::subcmd_reply_status(&subcmd, &InputReport::from_bytes(raw)), ReplyStatus::Pending));
    raw[0] = 0x30;
    raw[14] = 0x08;
    assert!(matches!(JoyCon::subcmd_reply_status(&subcmd, &InputReport::from_bytes(raw)), ReplyStatus::Pending));
}

#[test]
fn mcu_conditions() {
    let mut u = [0u8; 312];
    u[6] = 0x05;
    let status = MCUReport { id: joy::common::RawId::from_raw(0x01), u };
    assert!(McuCondition::Status.check(&status));
    assert!(McuCondition::Mode(MCUMode::IR).check(&status));
    assert!(!McuCondition::Mode(MCUMode::Standby).check(&status));
    assert!(McuCondition::NotBusy.check(&status));
    let busy = MCUReport { id: joy::common::RawId::from_raw(0x0b), u };
    assert!(!McuCondition::NotBusy.check(&busy));
}

#[test]
fn ir_plans() {
    let (joycon, _) = JoyCon::new(JOYCON_R_BT).unwrap();
    let steps = joycon.enable_ir(Resolution::R160x120);
    // MCU on, IR mode, then the resolution change.
    assert!(matches!(steps[0], Step::Subcmd(_)));
    assert_eq!(27, steps.len());
    assert!(matches!(steps[2], Step::Within(ErrorContext::EnableMcu)));
    assert!(matches!(steps[3], Step::WaitMcu(_, McuCondition::Mode(MCUMode::Standby))));
    assert!(matches!(steps[4], Step::End));
    assert!(matches!(steps[6], Step::Within(ErrorContext::SetMcuModeIr)));
    assert!(matches!(steps[9], Step::SetIrLoop(true)));
    assert!(matches!(steps[10], Step::Within(ErrorContext::ChangeIrResolutionReset)));
    assert!(matches!(steps[17], Step::Within(ErrorContext::ChangeIrResolution)));
    assert!(matches!(steps[18], Step::Send(_)));
    assert!(matches!(steps[20], Step::Within(ErrorContext::ChangeIrResolutionEnable)));
    assert!(matches!(steps[steps.len() - 5], Step::ConfigureIr(_, 0x3f)));
    assert!(matches!(steps[steps.len() - 4], Step::Within(ErrorContext::CheckSensorState)));
    assert!(matches!(steps[steps.len() - 1], Step::End));
    let regs = joycon.get_ir_registers();
    assert_eq!(15, regs.len());
    assert!(matches!(regs[12], Step::Within(ErrorContext::GetIrRegistersSlice)));
    assert!(matches!(
        regs[13],
        Step::WaitMcu(_, McuCondition::IrRegisters { page: 4, offset: 0, nb_registers: 0x6f })
    ));
    assert!(matches!(regs[14], Step::End));
    assert!(joycon.handle_cmd(JoyconCmd::Stop).is_none());
    let disable = joycon.disable_mcu();
    assert!(matches!(disable[0], Step::SetIrLoop(false)));
}

#[test]
fn battery_lights() {
    assert_eq!(0b0000_1111, battery_player_lights(BatteryLevel::Full).0);
    assert_eq!(0b0000_1110, battery_player_lights(BatteryLevel::Medium).0);
    assert_eq!(0b0000_1100, battery_player_lights(BatteryLevel::Low).0);
    assert_eq!(0b1000_0000, battery_player_lights(BatteryLevel::Critical).0);
}

#[test]
fn scan_finds_nintendo_controllers() {
    let devices = [(NINTENDO_VENDOR_ID, JOYCON_R_BT), (0x54c, 0x9cc), (NINTENDO_VENDOR_ID, 0x200e), (NINTENDO_VENDOR_ID, PRO_CONTROLLER)];
    let found = scan_for_joycons(&devices);
    assert_eq!(2, found.len());
    assert_eq!(0, found[0].index);
    assert_eq!(3, found[1].index);
    assert_eq!(WhichController::ProController, found[1].device_type().unwrap());
}

#[test]
fn joycon_keys_map_buttons() {
    let b = ButtonsStatus { right: RightButtons(0b0010_0010), middle: MiddleButtons(0b0001_0000), left: LeftButtons(0b0000_0010) };
    let keys = joycon_keys(&b);
    assert_eq!(KeyStatus::Pressed, keys.get(JoyKey::N));
    assert_eq!(KeyStatus::Pressed, keys.get(JoyKey::Up));
    assert_eq!(KeyStatus::Pressed, keys.get(JoyKey::SL));
    assert_eq!(KeyStatus::Pressed, keys.get(JoyKey::Home));
    assert_eq!(KeyStatus::Released, keys.get(JoyKey::S));
    assert_eq!(KeyStatus::Released, keys.get(JoyKey::Down));
}

#[test]
fn dualshock_dpad() {
    assert!(Dpad(0).up() && !Dpad(0).right());
    assert!(Dpad(1).up() && Dpad(1).right());
    assert!(Dpad(4).down() && !Dpad(4).left());
    assert!(Dpad(7).up() && Dpad(7).left());
    assert!(!Dpad(8).up() && !Dpad(8).right() && !Dpad(8).down() && !Dpad(8).left());
}

#[test]
fn dualshock_reports() {
    assert_eq!(ConnectionType::USB, dualshock::InputReport::conn_type(64));
    assert_eq!(ConnectionType::Bluetooth, dualshock::InputReport::conn_type(10));
    assert_eq!(ConnectionType::Bluetooth, dualshock::InputReport::conn_type(78));
    assert_eq!((10, 235), Stick { x: 10, y: 20 }.val());
    assert_eq!((0x321, 0x654), FingerCoord(0x21, 0x43, 0x65).raw());
    let mut raw = [0u8; 79];
    raw[0] = 0x11;
    raw[35] = 2;
    // first packet: one finger touching; second: none
    raw[37] = 0x05;
    raw[41] = 0x80;
    raw[46] = 0x81;
    raw[50] = 0x82;
    let report = dualshock::InputReport::from_bytes(&raw);
    let full = report.bt_full().unwrap();
    let packets = full.trackpad.packets();
    assert_eq!(1, packets.len());
    let fingers = packets[0].fingers();
    assert_eq!(1, fingers.len());
    assert_eq!(5, fingers[0].id());
    assert!(report.usb_full().is_none());
    assert!(DS4Driver.supports(0x54c, 0x5c4));
    assert!(!DS4Driver.supports(0x54c, 0x2006));
    let keys = dualshock::ds4_keys(&dualshock::Buttons([0x80 | 2, 0x01, 0x01]));
    assert_eq!(KeyStatus::Pressed, keys.get(JoyKey::N));
    assert_eq!(KeyStatus::Pressed, keys.get(JoyKey::Right));
    assert_eq!(KeyStatus::Pressed, keys.get(JoyKey::L));
    assert_eq!(KeyStatus::Pressed, keys.get(JoyKey::Home));
    assert_eq!(KeyStatus::Released, keys.get(JoyKey::SL));
}

#[test]
fn mac_addresses() {
    assert_eq!(Ok(()), is_mac("01:23:45:67:89:ab"));
    assert_eq!(Ok(()), is_mac("+1:2:3:4:5:FF"));
    assert_eq!(Err(MacError::Invalid), is_mac("01:23:45:67:89"));
    assert_eq!(Err(MacError::Parse(HexError::InvalidDigit)), is_mac("01:zz:45:67:89:ab"));
    assert_eq!(Err(MacError::Parse(HexError::Empty)), is_mac("01::45:67:89:ab"));
    assert_eq!(Err(MacError::Parse(HexError::PosOverflow)), is_mac("100:23:45:67:89:ab"));
    assert_eq!(Err(MacError::Parse(HexError::Empty)), is_mac(""));
}

#[test]
fn colors() {
    assert_eq!(Ok(Color(0x12, 0xab, 0xff)), parse_color("12abFF"));
    assert_eq!(Err(HexError::InvalidDigit), parse_color("12xbFF"));
}

#[test]
fn sticks_range_widens() {
    let neutral = joy::input::Stick { data: [0x00, 0x08, 0x80] };
    let moved = joy::input::Stick { data: [0x10, 0x00, 0x10] };
    let mut range = SticksRange::new(neutral, neutral);
    assert_eq!(0x800, range.l_x_min);
    assert_eq!(0x800, range.l_y_max);
    range.update(moved, neutral);
    assert_eq!(0x010, range.l_x_min);
    assert_eq!(0x800, range.l_x_max);
    assert_eq!(0x100, range.l_y_min);
    assert_eq!(0x800, range.r_x_max);
}

#[test]
fn set_color_plans_writes() {
    let info = DeviceInfo {
        firmware_version: FirmwareVersion([3, 0x48]),
        which_controller: joy::common::RawId::from(WhichController::ProController),
        _something: 2,
        mac_address: MACAddress([0; 6]),
        _somethingelse: 1,
        use_spi_colors: joy::common::RawId::from(UseSPIColors::WithoutGrip),
    };
    let colors = joy::spi::ControllerColor::default();
    assert_eq!(2, joy::joytk::set_color_steps(&info, colors, true).len());
    assert_eq!(1, joy::joytk::set_color_steps(&info, colors, false).len());
}

#[test]
fn accessory_replies() {
    let ok = AccessoryResponse { error: 0, len: 4, unknown_0x00: [0; 4], u: [0x34, 0x12, 0, 7, 0, 0, 0, 0, 0, 0, 0, 0, 0, 0, 0, 0, 0, 0, 0, 0] };
    let steps = ok.offline_steps().unwrap();
    assert_eq!(0x1234, u16::from(steps.steps));
    assert_eq!(7, steps.maybe_crc);
    let none = AccessoryResponse { error: 254, ..ok };
    assert_eq!(Error::NoAccessoryConnected, none.offline_steps().unwrap_err());
    assert_eq!("no accessory connected", Error::NoAccessoryConnected.message());
    let other = AccessoryResponse { error: 3, ..ok };
    assert_eq!(Error::Other(3), other.offline_steps().unwrap_err());
    let cmd = AccessoryCommand::write_offline_steps(0x0104, 185);
    assert_eq!([8, 4, 49, 1, 4, 0x04, 0x01, 0, 185], cmd.bytes()[..9]);
}

#[test]
fn spi_value_checks_range() {
    let mut u = [0u8; 347];
    u[0] = 0x3d;
    u[1] = 0x60;
    u[4] = 0x12;
    u[5] = 0xab;
    let reply = SubcommandReply { ack: Ack(0x90), id: joy::common::RawId::from(SubcommandId::SPIRead), u };
    let sticks: SticksCalibration = JoyCon::spi_value(&reply).unwrap();
    assert_eq!([0xab, 0, 0], sticks.left.max);
    u[0] = 0x3e;
    let wrong = SubcommandReply { ack: Ack(0x90), id: joy::common::RawId::from(SubcommandId::SPIRead), u };
    let err: WrongRangeError = JoyCon::spi_value::<SticksCalibration>(&wrong).unwrap_err();
    assert_eq!(SPIRange(0x603e, 0x12), err.got);
    assert_eq!(SPIRange(0x603d, 0x12), err.expected);
}

#[test]
fn mcu_report_ids() {
    let known = MCUReport { id: joy::common::RawId::from_raw(0x13), u: [0; 312] };
    assert!(known.validate());
    let unknown = MCUReport { id: joy::common::RawId::from_raw(0x42), u: [0; 312] };
    assert!(!unknown.validate());
    let state = joy::mcu::ir::IRRequest::get_state();
    let request = joy::mcu::MCURequest::from(state);
    assert_eq!(OutputReport::from(request).as_bytes(), OutputReport::from(joy::mcu::MCURequest::from_ir_request(state)).as_bytes());
    assert_eq!(0x3f, InputReport::default().raw[0]);
}

fn reply_report(id: u8, ack: u8) -> InputReport {
    let mut raw = [0u8; 362];
    raw[0] = 0x21;
    raw[13] = ack;
    raw[14] = id;
    InputReport::from_bytes(raw)
}

fn standard_report() -> InputReport {
    let mut raw = [0u8; 362];
    raw[0] = 0x30;
    InputReport::from_bytes(raw)
}

fn dev_info_subcmd(joycon: &JoyCon) -> SubcommandRequest {
    match joycon.get_dev_info() {
        Step::Subcmd(s) => s,
        _ => panic!("not a subcommand"),
    }
}

#[test]
fn subcmd_wait_returns_first_reply() {
    let (mut joycon, _) = JoyCon::new(JOYCON_R_BT).unwrap();
    let subcmd = dev_info_subcmd(&joycon);
    let (report, mut waiting) = joycon.call_subcmd_wait(subcmd);
    assert_eq!(0, report.as_bytes()[1]);
    assert_eq!(0x02, report.as_bytes()[10]);
    assert_eq!(1, joycon.counter);
    assert!(matches!(joycon.on_report(&mut waiting, &standard_report()), WaitOutcome::Read));
    assert!(matches!(joycon.on_report(&mut waiting, &reply_report(0x03, 0x80)), WaitOutcome::Read));
    assert!(matches!(waiting, Waiting::Reply { reads: 2, .. }));
    match joycon.on_report(&mut waiting, &reply_report(0x02, 0x82)) {
        WaitOutcome::Reply(reply) => {
            assert_eq!(Some(SubcommandId::RequestDeviceInfo), reply.id());
            assert_eq!(0x82, reply.ack.0);
        }
        other => panic!("{:?}", other),
    }
    assert!(matches!(joycon.on_report(&mut waiting, &reply_report(0x02, 0x00)), WaitOutcome::Nack));
    assert_eq!(1, joycon.counter);
}

#[test]
fn subcmd_wait_times_out_after_limit() {
    let (mut joycon, _) = JoyCon::new(JOYCON_R_BT).unwrap();
    let subcmd = dev_info_subcmd(&joycon);
    let (_, mut waiting) = joycon.call_subcmd_wait(subcmd);
    for _ in 0..199 {
        assert!(matches!(joycon.on_report(&mut waiting, &standard_report()), WaitOutcome::Read));
    }
    assert!(matches!(joycon.on_report(&mut waiting, &standard_report()), WaitOutcome::SubcmdTimeout));
}

#[test]
fn mcu_wait_resends_request() {
    let (mut joycon, _) = JoyCon::new(JOYCON_R_BT).unwrap();
    let request = joy::mcu::MCURequest::get_mcu_status();
    let (first, mut waiting) = joycon.wait_mcu_cond(request, McuCondition::Status);
    assert_eq!(0x11, first.as_bytes()[0]);
    assert_eq!(0, first.as_bytes()[1]);
    for _ in 0..199 {
        assert!(matches!(joycon.on_report(&mut waiting, &standard_report()), WaitOutcome::Read));
    }
    match joycon.on_report(&mut waiting, &standard_report()) {
        WaitOutcome::Write(again) => {
            assert_eq!(0x11, again.as_bytes()[0]);
            assert_eq!(1, again.as_bytes()[1]);
        }
        other => panic!("{:?}", other),
    }
    assert!(matches!(waiting, Waiting::Mcu { sends: 2, reads: 0, .. }));
    let mut raw = [0u8; 362];
    raw[0] = 0x31;
    raw[49] = 0x01;
    match joycon.on_report(&mut waiting, &InputReport::from_bytes(raw)) {
        WaitOutcome::Mcu(m) => assert_eq!(0x01, m.id.0),
        other => panic!("{:?}", other),
    }
}

#[test]
fn report_validation() {
    assert!(reply_report(0x02, 0x80).check_valid());
    assert!(!reply_report(0xee, 0x80).check_valid());
    assert!(standard_report().check_valid());
    reply_report(0x02, 0x80).validate();
}

#[test]
fn ir_registers_join_pages() {
    let mut reports = vec![];
    for page in 0u8..5 {
        let mut u = [0u8; 312];
        u[1] = page;
        u[2] = 0;
        u[3] = 0x6f;
        for j in 0..0x6f {
            u[4 + j] = page.wrapping_mul(16).wrapping_add(j as u8);
        }
        reports.push(MCUReport { id: joy::common::RawId::from_raw(0x1b), u });
    }
    let regs = JoyCon::ir_registers(&reports);
    assert_eq!(5 * 0x6f, regs.len());
    assert_eq!([0, 0], regs[0].address.0);
    assert_eq!(0, regs[0].value);
    assert_eq!([0, 0x6e], regs[0x6e].address.0);
    assert_eq!([1, 0], regs[0x6f].address.0);
    assert_eq!(16, regs[0x6f].value);
    assert_eq!([4, 0x6e], regs[5 * 0x6f - 1].address.0);
    assert_eq!(64 + 0x6e, regs[5 * 0x6f - 1].value);
}

#[test]
fn spi_colors_use_byte_checked() {
    let mut data = [0u8; 29];
    assert!(UseSPIColors::data_ok(&data));
    data[0] = 0x07;
    assert!(!UseSPIColors::data_ok(&data));
    assert!(joy::spi::SticksCalibration::data_ok(&data));
}
