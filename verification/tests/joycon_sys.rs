use joy::spi::{SPIRange, SPIReadRequest, SPIReadResult};
use joy::common::{InputReportId, RawId, SubcommandId, I16LE, U16LE};
use joy::light::{HomeLight, PlayerLight, PlayerLights};
use joy::mcu::compute_crc8;
use joy::mcu::ir_register::Register;
use joy::output::{OutputReport, OutputReportId, RumbleSide, SubcommandRequest};
use joy::mcu::{MCUCommand, MCUMode};

#[test]
fn light_check_layout() {
    assert_eq!(26, std::mem::size_of::<HomeLight>());
    let light = HomeLight::new(0x8, 0x2, 0x0, &[(0xf, 0xf, 0), (0x2, 0xf, 0)]);
    assert_eq!(26, light.bytes().len());
}

#[test]
fn crc() {
    let regs = &[Register::finish()];
    let (report, rest) = OutputReport::set_registers(regs);
    assert!(rest.is_empty());
    // The CRC of the MCU command is its last byte, at offset 48 of the report.
    let bytes = report.as_bytes();
    assert_eq!(156, bytes[48]);
}

#[test]
fn output_check_layout() {
    // rumble data at 2
    let report = OutputReport::set_rumble(Default::default());
    let bytes = report.as_bytes();
    assert_eq!([0x00, 0x01, 0x40, 0x40], bytes[2..6]);
    // subcommand at 10
    let report = OutputReport::from(SubcommandRequest::disable_shipment_mode());
    let bytes = report.as_bytes();
    assert_eq!(0x08, bytes[10]);
    assert_eq!(0x00, bytes[11]);
    // MCU command at 11
    let report = OutputReport::from(SubcommandRequest::from(MCUCommand::set_mcu_mode(MCUMode::IR)));
    let bytes = report.as_bytes();
    assert_eq!(0x21, bytes[11]);
    assert_eq!(49, std::mem::size_of::<OutputReport>());
    assert_eq!(49, bytes.len());
}

#[test]
fn default_rumble_is_idle() {
    let rumble = RumbleSide::default();
    assert_eq!(
        rumble,
        RumbleSide {
            hb_freq_msB: 0x00,
            hb_freq_lsb_amp_high: 0x01,
            lb_freq_amp_low_msb: 0x40,
            amp_low_lsB: 0x40,
        }
    );
}

#[test]
fn rumble_only_is_not_special() {
    let report = OutputReport::set_rumble(Default::default());
    assert!(!report.is_special());
    assert_eq!(10, report.len());
    assert_eq!(OutputReportId::RumbleOnly, report.id);
}

#[test]
fn player_lights_bits() {
    let l = PlayerLights::new(PlayerLight::On, PlayerLight::Off, PlayerLight::Blinking, PlayerLight::On);
    assert_eq!(0b0100_1001, l.0);
}

#[test]
fn crc_of_empty_is_table_entry() {
    assert_eq!(0x07, compute_crc8(1, &[]));
    assert_eq!(0, compute_crc8(0, &[0, 0, 0]));
}

#[test]
fn raw_id_roundtrip() {
    let id: RawId<SubcommandId> = RawId::from(SubcommandId::SPIRead);
    assert_eq!(0x10, id.raw());
    assert_eq!(Some(SubcommandId::SPIRead), id.try_into());
    assert!(RawId::<InputReportId>::from_raw(0x99).try_into().is_none());
}

#[test]
fn le_roundtrip() {
    assert_eq!(0x1234u16, u16::from(U16LE::from(0x1234u16)));
    assert_eq!([0x34, 0x12], U16LE::from(0x1234u16).0);
    assert_eq!(-2i16, i16::from(I16LE::from(-2i16)));
    assert_eq!([0xfe, 0xff], I16LE::from(-2i16).0);
}

#[test]
fn spi_addresses_little_endian() {
    let request = SPIReadRequest::new(SPIRange(0x6020, 0x18));
    assert_eq!([0x20, 0x60, 0x00, 0x00, 0x18], request.bytes());
    let result = SPIReadResult { address: [0x3d, 0x60, 0x01, 0x02], size: 0x12, data: [0; 29] };
    assert_eq!(SPIRange(0x0201_603d, 0x12), result.range());
}

#[test]
fn rumble_levels_of_idle() {
    // 320 Hz is code 160 and 160 Hz code 128, both at amplitude 0.
    let rumble = RumbleSide::from_levels(160, 0, 128, 0);
    assert_eq!(rumble, RumbleSide::default());
}

#[test]
fn rumble_levels_packing() {
    let rumble = RumbleSide::from_levels(0xdf, 100, 0x41, 100);
    assert_eq!(
        rumble,
        RumbleSide {
            hb_freq_msB: 0xfc,
            hb_freq_lsb_amp_high: 0x01 + 200,
            lb_freq_amp_low_msb: 0x01,
            amp_low_lsB: 0x72,
        }
    );
}
