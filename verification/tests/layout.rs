use joy::input::InputReport;
use joy::mcu::ir::{IRReadRegisters, IRRequest};
use joy::mcu::ir_register::Register;
use joy::mcu::{MCUCommand, MCUMode, MCURequest};
use joy::output::{OutputReport, SubcommandRequest};

/// An input report with the id and one marked byte.
fn report_with(id: u8, pos: usize, val: u8) -> InputReport {
    let mut raw = [0u8; 362];
    raw[0] = id;
    raw[pos] = val;
    InputReport::from_bytes(raw)
}

fn read_registers_report(nb_registers: u8) -> Vec<u8> {
    let request = IRRequest::from(IRReadRegisters { unknown_0x01: 0x01, page: 1, offset: 0, nb_registers });
    OutputReport::from(MCURequest::from_ir_request(request)).as_bytes()
}

#[test]
fn ir_check_output_layout() {
    let bytes = read_registers_report(0x6f);
    // The MCU request at 10, the IR request at 11, its number of registers at 15.
    assert_eq!(0x03, bytes[10]);
    assert_eq!(0x03, bytes[11]);
    assert_eq!(0x6f, bytes[15]);
}

#[test]
fn input_check_layout() {
    let r = report_with(0x30, 6, 0xab);
    assert_eq!(0xab, r.standard().unwrap().left_stick.data[0]);
    let r = report_with(0x30, 13, 0x12);
    assert_eq!([0x12, 0], r.imu_frames().unwrap()[0].raw_accel[0].0);
    let r = report_with(0x21, 13, 0x90);
    assert_eq!(0x90, r.subcmd_reply().unwrap().ack.0);
    let r = report_with(0x21, 15, 0x77);
    assert_eq!(0x77, r.subcmd_reply().unwrap().u[0]);
    let r = report_with(0x31, 49, 0x01);
    assert_eq!(0x01, r.mcu_report().unwrap().id.0);
    assert_eq!(362, std::mem::size_of::<InputReport>());
}

#[test]
fn report_check_layout() {
    let r = report_with(0x30, 6, 0x5a);
    assert_eq!(0x5a, r.standard().unwrap().left_stick.data[0]);
    let r = report_with(0x30, 13, 0x34);
    assert_eq!([0x34, 0], r.imu_frames().unwrap()[0].raw_accel[0].0);
    let r = report_with(0x21, 13, 0x80);
    assert_eq!(0x80, r.subcmd_reply().unwrap().ack.0);
    let r = report_with(0x21, 15, 0x42);
    assert_eq!(0x42, r.subcmd_reply().unwrap().u[0]);
    let r = report_with(0x31, 49, 0x03);
    assert_eq!(0x03, r.mcu_report().unwrap().id.0);
    assert_eq!(362, std::mem::size_of::<InputReport>());
}

#[test]
fn check_input_layout() {
    // The MCU report at 49.
    let r = report_with(0x31, 49, 0x01);
    assert_eq!(0x01, r.mcu_report().unwrap().id.0);
    // Its state at 56.
    let mut raw = [0u8; 362];
    raw[0] = 0x31;
    raw[49] = 0x01;
    raw[56] = 0x05;
    let status = InputReport::from_bytes(raw).mcu_report().unwrap().as_status().unwrap();
    assert_eq!(0x05, status.state.0);
    // A fragment of an image: its number at 52, the average intensity at 53,
    // the white pixel count at 55, the image at 59.
    let mut raw = [0u8; 362];
    raw[0] = 0x31;
    raw[49] = 0x03;
    raw[52] = 0x0a;
    raw[53] = 0x0b;
    raw[55] = 0x0c;
    raw[59] = 0x0d;
    let data = InputReport::from_bytes(raw).mcu_report().unwrap().as_ir_data().unwrap();
    assert_eq!(0x0a, data.frag_number);
    assert_eq!(0x0b, data.average_intensity);
    assert_eq!([0x0c, 0], data.white_pixel_count.0);
    assert_eq!(0x0d, data.img_fragment[0]);
    // The values of the registers at 54.
    let mut raw = [0u8; 362];
    raw[0] = 0x31;
    raw[49] = 0x1b;
    raw[54] = 0x0e;
    let regs = InputReport::from_bytes(raw).mcu_report().unwrap().as_ir_registers().unwrap();
    assert_eq!(0x0e, regs.values[0]);
}

#[test]
fn mod_check_output_layout() {
    let bytes = read_registers_report(0x6f);
    // The MCU request id at 10, its arguments at 11, their CRC at 47 and
    // the trailing byte at 48.
    assert_eq!(0x03, bytes[10]);
    assert_eq!(0x03, bytes[11]);
    let crc = joy::mcu::compute_crc8(0, &bytes[11..47]);
    assert_eq!(crc, bytes[47]);
    // The trailing byte, at 48, is past the 48 bytes sent.
    let state = OutputReport::from(MCURequest::from_ir_request(IRRequest::get_state()));
    assert_eq!(48, state.as_bytes().len());
    assert_eq!(0x02, state.raw[10]);
    assert_eq!(0xff, state.raw[47]);
    // An MCU command: its sub-command at 12, its arguments at 13 and their
    // CRC at 48.
    let report = OutputReport::from(SubcommandRequest::from(MCUCommand::set_mcu_mode(MCUMode::IR)));
    let bytes = report.as_bytes();
    assert_eq!(0x00, bytes[12]);
    assert_eq!(0x05, bytes[13]);
    assert_eq!(joy::mcu::compute_crc8(0, &bytes[13..48]), bytes[48]);
    let regs = &[Register::finish()];
    let (report, _) = OutputReport::set_registers(regs);
    assert_eq!(156, report.as_bytes()[48]);
}
