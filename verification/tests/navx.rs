use robotrs::navx::{
    after_data_read, data_read_length, decode_configuration, decode_data, get_crc, read_command,
    read_response_ok, write_command, Capabilities, Config, ConfigError, StateUpdate,
    CAPABILITIES_ALL, CONFIGURATION_READ_LENGTH, DATA_READ_LENGTH,
    DATA_READ_LENGTH_WITH_DISPLACEMENT, NAVX_REG_CAPABILITY_FLAGS_L, NAVX_REG_DISP_Z_I_L,
    NAVX_REG_GYRO_FSR_DPS_L, NAVX_REG_GYRO_X_L, NAVX_REG_PITCH_L, NAVX_REG_UPDATE_RATE_HZ,
    NAVX_REG_VEL_X_I_L, NAVX_REG_YAW_L, NAVX_WHOAMI_VALUE,
};
use robotrs::protocol::ProtocolFloat;

#[test]
fn crc_of_empty_frame_is_zero() {
    assert_eq!(get_crc(&[]), 0);
}

#[test]
fn crc_known_values() {
    assert_eq!(get_crc(&[1]), 65);
    assert_eq!(get_crc(&[0x80, 0x05, 0x01]), 121);
    assert_eq!(get_crc(b"123456789"), 37);
}

#[test]
fn capabilities_truncate_unknown_bits() {
    let c = Capabilities::from_bits_truncate(0xFFFF);
    assert_eq!(c.bits, CAPABILITIES_ALL);
    assert!(c.contains(Capabilities::DISPLACEMENT));
    assert!(c.contains(Capabilities::OMNIMOUNT | Capabilities::YAW_RESET));
    let none = Capabilities::from_bits_truncate(0x0003);
    assert_eq!(none.bits, 0);
    assert!(!none.contains(Capabilities::POS_TIMESTAMP));
    assert!(none.contains(0));
}

fn config_dump() -> Vec<u8> {
    let mut b = vec![0u8; CONFIGURATION_READ_LENGTH];
    b[0] = NAVX_WHOAMI_VALUE;
    b[1] = 5; // hw rev
    b[2] = 3; // fw major
    b[3] = 7; // fw minor
    b[4] = 200; // update rate
    b[5] = 8; // accel fsr
    b[6] = 0xD0; // gyro fsr low
    b[7] = 0x07; // gyro fsr high
    b[8] = 4; // op status
    b[9] = 2; // cal status
    b[10] = 1; // self test
    b[11] = 0xC5; // capability low (0x01 is not a known flag)
    b[12] = 0x01; // capability high
    b[16] = 0x34;
    b[17] = 0x12;
    b
}

#[test]
fn configuration_decodes_fields() {
    let c: Config = match decode_configuration::<()>(&config_dump()) {
        Ok(c) => c,
        Err(_) => panic!("expected a configuration"),
    };
    assert_eq!(c.id.ty, NAVX_WHOAMI_VALUE);
    assert_eq!(c.id.hw_rev, 5);
    assert_eq!(c.id.fw_ver_major, 3);
    assert_eq!(c.id.fw_ver_minor, 7);
    assert_eq!(c.id.fw_revision, 0);
    assert_eq!(c.id.unique_id, [0u8; 12]);
    assert_eq!(c.state.update_rate_hz, 200);
    assert_eq!(c.state.accel_fsr_g, 8);
    assert_eq!(c.state.gyro_fsr_dps, 2000);
    assert_eq!(c.state.op_status, 4);
    assert_eq!(c.state.cal_status, 2);
    assert_eq!(c.state.selftest_status, 1);
    assert_eq!(c.state.capability_flags.bits, 0x01C4);
    assert_eq!(c.state.sensor_status, 0x1234);
}

#[test]
fn configuration_rejects_wrong_identity() {
    let mut b = config_dump();
    b[0] = 0x31;
    assert!(matches!(decode_configuration::<()>(&b), Err(ConfigError::InvalidWhoAmI)));
    assert!(matches!(decode_configuration::<()>(&[0u8]), Err(ConfigError::InvalidWhoAmI)));
}

fn data_dump(len: usize) -> Vec<u8> {
    let mut b = vec![0u8; len];
    let at = |reg: usize| reg - NAVX_REG_UPDATE_RATE_HZ;
    b[0] = 100;
    b[at(NAVX_REG_YAW_L)] = 0x39; // 12345 = 0x3039
    b[at(NAVX_REG_YAW_L) + 1] = 0x30;
    b[at(NAVX_REG_PITCH_L)] = 0xFF; // -1
    b[at(NAVX_REG_PITCH_L) + 1] = 0xFF;
    b[at(NAVX_REG_GYRO_X_L)] = 0x02;
    b[at(NAVX_REG_GYRO_X_L) + 1] = 0x01;
    b[at(NAVX_REG_GYRO_FSR_DPS_L)] = 0xFA;
    b[at(NAVX_REG_CAPABILITY_FLAGS_L)] = 0x40;
    if len >= DATA_READ_LENGTH_WITH_DISPLACEMENT {
        b[at(NAVX_REG_VEL_X_I_L)] = 0x01;
        b[at(NAVX_REG_VEL_X_I_L) + 2] = 0x02;
        b[at(NAVX_REG_DISP_Z_I_L) + 3] = 0x80;
    }
    b
}

#[test]
fn data_decodes_orientation_and_settings() {
    let (state, settings) = decode_data(&data_dump(DATA_READ_LENGTH), false);
    assert_eq!(state.base.yaw, ProtocolFloat::SignedHundredths(12345));
    assert_eq!(state.base.pitch, ProtocolFloat::SignedHundredths(-1));
    assert_eq!(state.raw.gyro_x, 0x0102);
    assert!(state.pos.is_none());
    assert_eq!(
        settings,
        StateUpdate {
            capability_flags: Capabilities { bits: Capabilities::DISPLACEMENT },
            update_rate_hz: 100,
            accel_fsr_g: 0,
            gyro_fsr_dps: 0xFA,
        }
    );
}

#[test]
fn data_decodes_displacement_when_asked() {
    let (state, _) = decode_data(&data_dump(DATA_READ_LENGTH_WITH_DISPLACEMENT), true);
    let pos = state.pos.expect("displacement requested");
    assert_eq!(pos.vel_x, ProtocolFloat::Fixed1616(0x0002_0001));
    assert_eq!(pos.disp_z, ProtocolFloat::Fixed1616(0x8000_0000));
}

#[test]
fn merge_takes_settings_only() {
    let mut c = match decode_configuration::<()>(&config_dump()) {
        Ok(c) => c,
        Err(_) => panic!("expected a configuration"),
    };
    let before = c;
    let update = StateUpdate {
        capability_flags: Capabilities { bits: 0 },
        update_rate_hz: 50,
        accel_fsr_g: 16,
        gyro_fsr_dps: 500,
    };
    c.merge(&update);
    assert_eq!(c.id, before.id);
    assert_eq!(c.state.update_rate_hz, 50);
    assert_eq!(c.state.accel_fsr_g, 16);
    assert_eq!(c.state.gyro_fsr_dps, 500);
    assert_eq!(c.state.capability_flags.bits, 0);
    assert_eq!(c.state.op_status, before.state.op_status);
    assert_eq!(c.state.sensor_status, before.state.sensor_status);
}

#[test]
fn spi_frames_carry_crc() {
    let w = write_command(0x04, 50);
    assert_eq!(w[0], 0x84);
    assert_eq!(w[1], 50);
    assert_eq!(w[2], get_crc(&[0x84, 50]));
    let r = read_command(0x00, 0x112);
    assert_eq!(r[0], 0x00);
    assert_eq!(r[1], 0x12);
    assert_eq!(r[2], get_crc(&[0x00, 0x12]));
}

#[test]
fn read_responses_checked() {
    let good = [1u8, 2, 3, 4, 5];
    assert!(read_response_ok(&good, get_crc(&good)));
    assert!(!read_response_ok(&good, get_crc(&good).wrapping_add(1)));
    let zeros = [0u8, 0, 0, 0, 9];
    assert!(!read_response_ok(&zeros, get_crc(&zeros)));
}

#[test]
fn polling_loop_decisions() {
    assert_eq!(data_read_length(false), DATA_READ_LENGTH);
    assert_eq!(data_read_length(true), DATA_READ_LENGTH_WITH_DISPLACEMENT);
    let update = StateUpdate {
        capability_flags: Capabilities { bits: Capabilities::DISPLACEMENT },
        update_rate_hz: 60,
        accel_fsr_g: 2,
        gyro_fsr_dps: 2000,
    };
    assert_eq!(after_data_read(&update, 60), (false, true));
    assert_eq!(after_data_read(&update, 50), (true, true));
    let plain = StateUpdate { capability_flags: Capabilities { bits: 0 }, ..update };
    assert_eq!(after_data_read(&plain, 60), (false, false));
}
