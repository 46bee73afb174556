//! navX-MXP register map decoding, board configuration, and the SPI frame CRC.
use vstd::prelude::*;

use crate::protocol::{
    decode_i16, decode_u16, decode_u32, le_i16, le_u16, le_u32, AHRSPosUpdate, AHRSUpdateBase,
    BoardID, ProtocolFloat,
};

verus! {

pub const NAVX_REG_WHOAMI: usize = 0x00;
pub const NAVX_REG_HW_REV: usize = 0x01;
pub const NAVX_REG_FW_VER_MAJOR: usize = 0x02;
pub const NAVX_REG_FW_VER_MINOR: usize = 0x03;
pub const NAVX_REG_UPDATE_RATE_HZ: usize = 0x04;
pub const NAVX_REG_ACCEL_FSR_G: usize = 0x05;
pub const NAVX_REG_GYRO_FSR_DPS_L: usize = 0x06;
pub const NAVX_REG_OP_STATUS: usize = 0x08;
pub const NAVX_REG_CAL_STATUS: usize = 0x09;
pub const NAVX_REG_SELFTEST_STATUS: usize = 0x0A;
pub const NAVX_REG_CAPABILITY_FLAGS_L: usize = 0x0B;
pub const NAVX_REG_SENSOR_STATUS_L: usize = 0x10;
pub const NAVX_REG_SENSOR_STATUS_H: usize = 0x11;
pub const NAVX_REG_YAW_L: usize = 0x16;
pub const NAVX_REG_ROLL_L: usize = 0x18;
pub const NAVX_REG_PITCH_L: usize = 0x1A;
pub const NAVX_REG_HEADING_L: usize = 0x1C;
pub const NAVX_REG_FUSED_HEADING_L: usize = 0x1E;
pub const NAVX_REG_ALTITUDE_D_L: usize = 0x22;
pub const NAVX_REG_LINEAR_ACC_X_L: usize = 0x24;
pub const NAVX_REG_LINEAR_ACC_Y_L: usize = 0x26;
pub const NAVX_REG_LINEAR_ACC_Z_L: usize = 0x28;
pub const NAVX_REG_QUAT_W_L: usize = 0x2A;
pub const NAVX_REG_QUAT_X_L: usize = 0x2C;
pub const NAVX_REG_QUAT_Y_L: usize = 0x2E;
pub const NAVX_REG_QUAT_Z_L: usize = 0x30;
pub const NAVX_REG_MPU_TEMP_C_L: usize = 0x32;
pub const NAVX_REG_GYRO_X_L: usize = 0x34;
pub const NAVX_REG_GYRO_Y_L: usize = 0x36;
pub const NAVX_REG_GYRO_Z_L: usize = 0x38;
pub const NAVX_REG_ACC_X_L: usize = 0x3A;
pub const NAVX_REG_ACC_Y_L: usize = 0x3C;
pub const NAVX_REG_ACC_Z_L: usize = 0x3E;
pub const NAVX_REG_MAG_X_L: usize = 0x40;
pub const NAVX_REG_MAG_Y_L: usize = 0x42;
pub const NAVX_REG_MAG_Z_L: usize = 0x44;
pub const NAVX_REG_PRESSURE_DL: usize = 0x48;
pub const NAVX_REG_QUAT_OFFSET_Z_H: usize = 0x55;
pub const NAVX_REG_VEL_X_I_L: usize = 0x58;
pub const NAVX_REG_VEL_Y_I_L: usize = 0x5C;
pub const NAVX_REG_VEL_Z_I_L: usize = 0x60;
pub const NAVX_REG_DISP_X_I_L: usize = 0x64;
pub const NAVX_REG_DISP_Y_I_L: usize = 0x68;
pub const NAVX_REG_DISP_Z_I_L: usize = 0x6C;
pub const NAVX_REG_LAST: usize = 0x6F;

/// The value the WHO_AM_I register holds on a navX board.
pub const NAVX_WHOAMI_VALUE: u8 = 0x32;

/// Bytes of a configuration read, starting at the WHO_AM_I register.
pub const CONFIGURATION_READ_LENGTH: usize = 0x12;
/// Bytes of a data read starting at the update-rate register, without positioning data.
pub const DATA_READ_LENGTH: usize = 0x52;
/// Bytes of a data read starting at the update-rate register, with positioning data.
pub const DATA_READ_LENGTH_WITH_DISPLACEMENT: usize = 0x6C;

/// Mask of the capability bits this library knows.
pub const CAPABILITIES_ALL: u16 = 0x01C4;

/// The capability flags a board reports.
#[derive(Debug, Clone, Copy, Default, PartialEq, Eq)]
pub struct Capabilities {
    pub bits: u16,
}

impl Capabilities {
    pub const OMNIMOUNT: u16 = 0x0004;
    pub const DISPLACEMENT: u16 = 0x0040;
    pub const YAW_RESET: u16 = 0x0080;
    pub const POS_TIMESTAMP: u16 = 0x0100;

    /// The flags of `bits` that this library knows; other bits are dropped.
    pub fn from_bits_truncate(bits: u16) -> (c: Capabilities)
        ensures
            c.bits == bits & CAPABILITIES_ALL,
    {
        Capabilities { bits: bits & CAPABILITIES_ALL }
    }

    /// Whether every bit of `flags` is set.
    pub fn contains(&self, flags: u16) -> (r: bool)
        ensures
            r == (self.bits & flags == flags),
    {
        self.bits & flags == flags
    }
}

/// The status and settings of a board.
#[derive(Debug, Clone, Copy, Default, PartialEq, Eq)]
pub struct BoardState {
    pub op_status: u8,
    pub sensor_status: u16,
    pub cal_status: u8,
    pub selftest_status: u8,
    pub capability_flags: Capabilities,
    pub update_rate_hz: u8,
    pub accel_fsr_g: u16,
    pub gyro_fsr_dps: u16,
}

/// A board's identity and state.
#[derive(Debug, Clone, Copy, Default, PartialEq, Eq)]
pub struct Config {
    pub id: BoardID,
    pub state: BoardState,
}

/// The settings that each data read refreshes.
#[derive(Debug, Clone, Copy, Default, PartialEq, Eq)]
pub struct StateUpdate {
    pub capability_flags: Capabilities,
    pub update_rate_hz: u8,
    pub accel_fsr_g: u16,
    pub gyro_fsr_dps: u16,
}

impl Config {
    /// Takes over the settings of a data read; identity and status stay as they were.
    pub fn merge(&mut self, other: &StateUpdate)
        ensures
            final(self).id == old(self).id,
            final(self).state == (BoardState {
                capability_flags: other.capability_flags,
                update_rate_hz: other.update_rate_hz,
                accel_fsr_g: other.accel_fsr_g,
                gyro_fsr_dps: other.gyro_fsr_dps,
                ..old(self).state
            }),
    {
        self.state.capability_flags = other.capability_flags;
        self.state.update_rate_hz = other.update_rate_hz;
        self.state.accel_fsr_g = other.accel_fsr_g;
        self.state.gyro_fsr_dps = other.gyro_fsr_dps;
    }
}

/// Why a configuration could not be read. `E` is the error type of the transport.
#[derive(Debug)]
pub enum ConfigError<E> {
    Io(E),
    InvalidWhoAmI,
}

/// The board state held in a register dump that starts at WHO_AM_I.
pub open spec fn configuration_state_of(s: Seq<u8>) -> BoardState {
    BoardState {
        op_status: s[8],
        sensor_status: le_u16(s, 0x10),
        cal_status: s[9],
        selftest_status: s[10],
        capability_flags: Capabilities { bits: le_u16(s, 0x0B) & CAPABILITIES_ALL },
        update_rate_hz: s[4],
        accel_fsr_g: s[5] as u16,
        gyro_fsr_dps: le_u16(s, 0x06),
    }
}

/// Decodes the configuration in a register dump that starts at the WHO_AM_I register. Fails

/// A configuration read, which starts at the WHO_AM_I register, holds each board-state field at
/// the offset of its own register.
pub proof fn lemma_configuration_layout(s: Seq<u8>)
    ensures
        configuration_state_of(s).op_status == s[NAVX_REG_OP_STATUS - NAVX_REG_WHOAMI],
        configuration_state_of(s).sensor_status == le_u16(s, NAVX_REG_SENSOR_STATUS_L - NAVX_REG_WHOAMI),
        configuration_state_of(s).cal_status == s[NAVX_REG_CAL_STATUS - NAVX_REG_WHOAMI],
        configuration_state_of(s).selftest_status == s[NAVX_REG_SELFTEST_STATUS - NAVX_REG_WHOAMI],
        configuration_state_of(s).capability_flags.bits == le_u16(
            s,
            NAVX_REG_CAPABILITY_FLAGS_L - NAVX_REG_WHOAMI,
        ) & CAPABILITIES_ALL,
        configuration_state_of(s).update_rate_hz == s[NAVX_REG_UPDATE_RATE_HZ - NAVX_REG_WHOAMI],
        configuration_state_of(s).accel_fsr_g == s[NAVX_REG_ACCEL_FSR_G - NAVX_REG_WHOAMI] as u16,
        configuration_state_of(s).gyro_fsr_dps == le_u16(s, NAVX_REG_GYRO_FSR_DPS_L - NAVX_REG_WHOAMI),
{
}

/// with `InvalidWhoAmI` when that register does not hold the navX identifier.
pub fn decode_configuration<E>(buffer: &[u8]) -> (r: Result<Config, ConfigError<E>>)
    requires
        buffer@.len() >= 1,
        buffer@[0] == NAVX_WHOAMI_VALUE ==> buffer@.len() >= CONFIGURATION_READ_LENGTH,
    ensures
        buffer@[0] != NAVX_WHOAMI_VALUE <==> r matches Err(ConfigError::InvalidWhoAmI),
        r matches Ok(c) ==> {
            &&& c.state == configuration_state_of(buffer@)
            &&& c.id.ty == buffer@[NAVX_REG_WHOAMI as int]
            &&& c.id.hw_rev == buffer@[NAVX_REG_HW_REV as int]
            &&& c.id.fw_ver_major == buffer@[NAVX_REG_FW_VER_MAJOR as int]
            &&& c.id.fw_ver_minor == buffer@[NAVX_REG_FW_VER_MINOR as int]
            &&& c.id.fw_revision == 0
            &&& c.id.unique_id@ == Seq::new(12, |i: int| 0u8)
        },
{
    if buffer[NAVX_REG_WHOAMI] != NAVX_WHOAMI_VALUE {
        return Err(ConfigError::InvalidWhoAmI);
    }
    let id = BoardID {
        ty: buffer[NAVX_REG_WHOAMI],
        hw_rev: buffer[NAVX_REG_HW_REV],
        fw_ver_major: buffer[NAVX_REG_FW_VER_MAJOR],
        fw_ver_minor: buffer[NAVX_REG_FW_VER_MINOR],
        fw_revision: 0,
        unique_id: [0u8; 12],
    };
    let state = BoardState {
        cal_status: buffer[NAVX_REG_CAL_STATUS],
        op_status: buffer[NAVX_REG_OP_STATUS],
        selftest_status: buffer[NAVX_REG_SELFTEST_STATUS],
        sensor_status: decode_u16(buffer, NAVX_REG_SENSOR_STATUS_L),
        gyro_fsr_dps: decode_u16(buffer, NAVX_REG_GYRO_FSR_DPS_L),
        accel_fsr_g: buffer[NAVX_REG_ACCEL_FSR_G] as u16,
        update_rate_hz: buffer[NAVX_REG_UPDATE_RATE_HZ],
        capability_flags: Capabilities::from_bits_truncate(
            decode_u16(buffer, NAVX_REG_CAPABILITY_FLAGS_L),
        ),
    };
    assert(id.unique_id@ =~= Seq::new(12, |i: int| 0u8));
    Ok(Config { id, state })
}

/// Raw gyro, accelerometer and magnetometer readings in device units, and the MPU temperature.
#[derive(Debug, Clone, Copy, Default, PartialEq, Eq)]
pub struct GyroUpdate {
    pub gyro_x: i16,
    pub gyro_y: i16,
    pub gyro_z: i16,
    pub accel_x: i16,
    pub accel_y: i16,
    pub accel_z: i16,
    pub mag_x: i16,
    pub mag_y: i16,
    pub mag_z: i16,
    pub temp_c: ProtocolFloat,
}

/// Everything a data read reports.
#[derive(Debug, Clone, Copy, Default, PartialEq, Eq)]
pub struct State {
    pub base: AHRSUpdateBase,
    pub pos: Option<AHRSPosUpdate>,
    pub raw: GyroUpdate,
}

/// The offset within a data read of register `reg`; data reads start at the update-rate
/// register.
pub open spec fn data_offset(reg: usize) -> int {
    reg - NAVX_REG_UPDATE_RATE_HZ
}

/// The orientation and status held in a data read.
pub open spec fn data_base_of(s: Seq<u8>) -> AHRSUpdateBase {
    AHRSUpdateBase {
        yaw: ProtocolFloat::SignedHundredths(le_i16(s, data_offset(NAVX_REG_YAW_L))),
        pitch: ProtocolFloat::SignedHundredths(le_i16(s, data_offset(NAVX_REG_PITCH_L))),
        roll: ProtocolFloat::SignedHundredths(le_i16(s, data_offset(NAVX_REG_ROLL_L))),
        compass_heading: ProtocolFloat::UnsignedHundredths(le_u16(s, data_offset(NAVX_REG_HEADING_L))),
        altitude: ProtocolFloat::Fixed1616(le_u32(s, data_offset(NAVX_REG_ALTITUDE_D_L))),
        fused_heading: ProtocolFloat::UnsignedHundredths(
            le_u16(s, data_offset(NAVX_REG_FUSED_HEADING_L)),
        ),
        linear_accel_x: ProtocolFloat::Thousandths(le_u16(s, data_offset(NAVX_REG_LINEAR_ACC_X_L))),
        linear_accel_y: ProtocolFloat::Thousandths(le_u16(s, data_offset(NAVX_REG_LINEAR_ACC_Y_L))),
        linear_accel_z: ProtocolFloat::Thousandths(le_u16(s, data_offset(NAVX_REG_LINEAR_ACC_Z_L))),
        mpu_temp: ProtocolFloat::SignedHundredths(le_i16(s, data_offset(NAVX_REG_MPU_TEMP_C_L))),
        quat_w: ProtocolFloat::QuaternionI16(le_i16(s, data_offset(NAVX_REG_QUAT_W_L))),
        quat_x: ProtocolFloat::QuaternionI16(le_i16(s, data_offset(NAVX_REG_QUAT_X_L))),
        quat_y: ProtocolFloat::QuaternionI16(le_i16(s, data_offset(NAVX_REG_QUAT_Y_L))),
        quat_z: ProtocolFloat::QuaternionI16(le_i16(s, data_offset(NAVX_REG_QUAT_Z_L))),
        barometric_pressure: ProtocolFloat::Fixed1616(le_u32(s, data_offset(NAVX_REG_PRESSURE_DL))),
        op_status: s[data_offset(NAVX_REG_OP_STATUS)],
        sensor_status: s[data_offset(NAVX_REG_SENSOR_STATUS_L)],
        cal_status: s[data_offset(NAVX_REG_CAL_STATUS)],
        selftest_status: s[data_offset(NAVX_REG_SELFTEST_STATUS)],
    }
}

/// The velocity and displacement held in a data read.
pub open spec fn data_pos_of(s: Seq<u8>) -> AHRSPosUpdate {
    AHRSPosUpdate {
        vel_x: ProtocolFloat::Fixed1616(le_u32(s, data_offset(NAVX_REG_VEL_X_I_L))),
        vel_y: ProtocolFloat::Fixed1616(le_u32(s, data_offset(NAVX_REG_VEL_Y_I_L))),
        vel_z: ProtocolFloat::Fixed1616(le_u32(s, data_offset(NAVX_REG_VEL_Z_I_L))),
        disp_x: ProtocolFloat::Fixed1616(le_u32(s, data_offset(NAVX_REG_DISP_X_I_L))),
        disp_y: ProtocolFloat::Fixed1616(le_u32(s, data_offset(NAVX_REG_DISP_Y_I_L))),
        disp_z: ProtocolFloat::Fixed1616(le_u32(s, data_offset(NAVX_REG_DISP_Z_I_L))),
    }
}

/// The raw sensor readings held in a data read.
pub open spec fn data_raw_of(s: Seq<u8>) -> GyroUpdate {
    GyroUpdate {
        gyro_x: le_i16(s, data_offset(NAVX_REG_GYRO_X_L)),
        gyro_y: le_i16(s, data_offset(NAVX_REG_GYRO_Y_L)),
        gyro_z: le_i16(s, data_offset(NAVX_REG_GYRO_Z_L)),
        accel_x: le_i16(s, data_offset(NAVX_REG_ACC_X_L)),
        accel_y: le_i16(s, data_offset(NAVX_REG_ACC_Y_L)),
        accel_z: le_i16(s, data_offset(NAVX_REG_ACC_Z_L)),
        mag_x: le_i16(s, data_offset(NAVX_REG_MAG_X_L)),
        mag_y: le_i16(s, data_offset(NAVX_REG_MAG_Y_L)),
        mag_z: le_i16(s, data_offset(NAVX_REG_MAG_Z_L)),
        temp_c: ProtocolFloat::SignedHundredths(le_i16(s, data_offset(NAVX_REG_MPU_TEMP_C_L))),
    }
}

/// The settings held in a data read.
pub open spec fn data_settings_of(s: Seq<u8>) -> StateUpdate {
    StateUpdate {
        update_rate_hz: s[0],
        gyro_fsr_dps: le_u16(s, data_offset(NAVX_REG_GYRO_FSR_DPS_L)),
        accel_fsr_g: s[data_offset(NAVX_REG_ACCEL_FSR_G)] as u16,
        capability_flags: Capabilities {
            bits: le_u16(s, data_offset(NAVX_REG_CAPABILITY_FLAGS_L)) & CAPABILITIES_ALL,
        },
    }
}

/// What a data read holds, each field read at the offset of its own register from the
/// update-rate register where the dump starts: the orientation, the raw sensor readings, the
/// settings, and the positioning data exactly when `displacement` is set.
pub open spec fn dump_fields(s: Seq<u8>, st: State, su: StateUpdate, displacement: bool) -> bool {
    &&& st.base.yaw == ProtocolFloat::SignedHundredths(le_i16(s, NAVX_REG_YAW_L - NAVX_REG_UPDATE_RATE_HZ))
    &&& st.base.pitch == ProtocolFloat::SignedHundredths(le_i16(s, NAVX_REG_PITCH_L - NAVX_REG_UPDATE_RATE_HZ))
    &&& st.base.roll == ProtocolFloat::SignedHundredths(le_i16(s, NAVX_REG_ROLL_L - NAVX_REG_UPDATE_RATE_HZ))
    &&& st.base.compass_heading == ProtocolFloat::UnsignedHundredths(le_u16(s, NAVX_REG_HEADING_L - NAVX_REG_UPDATE_RATE_HZ))
    &&& st.base.altitude == ProtocolFloat::Fixed1616(le_u32(s, NAVX_REG_ALTITUDE_D_L - NAVX_REG_UPDATE_RATE_HZ))
    &&& st.base.fused_heading == ProtocolFloat::UnsignedHundredths(le_u16(s, NAVX_REG_FUSED_HEADING_L - NAVX_REG_UPDATE_RATE_HZ))
    &&& st.base.linear_accel_x == ProtocolFloat::Thousandths(le_u16(s, NAVX_REG_LINEAR_ACC_X_L - NAVX_REG_UPDATE_RATE_HZ))
    &&& st.base.linear_accel_y == ProtocolFloat::Thousandths(le_u16(s, NAVX_REG_LINEAR_ACC_Y_L - NAVX_REG_UPDATE_RATE_HZ))
    &&& st.base.linear_accel_z == ProtocolFloat::Thousandths(le_u16(s, NAVX_REG_LINEAR_ACC_Z_L - NAVX_REG_UPDATE_RATE_HZ))
    &&& st.base.mpu_temp == ProtocolFloat::SignedHundredths(le_i16(s, NAVX_REG_MPU_TEMP_C_L - NAVX_REG_UPDATE_RATE_HZ))
    &&& st.base.quat_w == ProtocolFloat::QuaternionI16(le_i16(s, NAVX_REG_QUAT_W_L - NAVX_REG_UPDATE_RATE_HZ))
    &&& st.base.quat_x == ProtocolFloat::QuaternionI16(le_i16(s, NAVX_REG_QUAT_X_L - NAVX_REG_UPDATE_RATE_HZ))
    &&& st.base.quat_y == ProtocolFloat::QuaternionI16(le_i16(s, NAVX_REG_QUAT_Y_L - NAVX_REG_UPDATE_RATE_HZ))
    &&& st.base.quat_z == ProtocolFloat::QuaternionI16(le_i16(s, NAVX_REG_QUAT_Z_L - NAVX_REG_UPDATE_RATE_HZ))
    &&& st.base.barometric_pressure == ProtocolFloat::Fixed1616(le_u32(s, NAVX_REG_PRESSURE_DL - NAVX_REG_UPDATE_RATE_HZ))
    &&& st.base.op_status == s[NAVX_REG_OP_STATUS - NAVX_REG_UPDATE_RATE_HZ]
    &&& st.base.sensor_status == s[NAVX_REG_SENSOR_STATUS_L - NAVX_REG_UPDATE_RATE_HZ]
    &&& st.base.cal_status == s[NAVX_REG_CAL_STATUS - NAVX_REG_UPDATE_RATE_HZ]
    &&& st.base.selftest_status == s[NAVX_REG_SELFTEST_STATUS - NAVX_REG_UPDATE_RATE_HZ]
    &&& st.raw.gyro_x == le_i16(s, NAVX_REG_GYRO_X_L - NAVX_REG_UPDATE_RATE_HZ)
    &&& st.raw.gyro_y == le_i16(s, NAVX_REG_GYRO_Y_L - NAVX_REG_UPDATE_RATE_HZ)
    &&& st.raw.gyro_z == le_i16(s, NAVX_REG_GYRO_Z_L - NAVX_REG_UPDATE_RATE_HZ)
    &&& st.raw.accel_x == le_i16(s, NAVX_REG_ACC_X_L - NAVX_REG_UPDATE_RATE_HZ)
    &&& st.raw.accel_y == le_i16(s, NAVX_REG_ACC_Y_L - NAVX_REG_UPDATE_RATE_HZ)
    &&& st.raw.accel_z == le_i16(s, NAVX_REG_ACC_Z_L - NAVX_REG_UPDATE_RATE_HZ)
    &&& st.raw.mag_x == le_i16(s, NAVX_REG_MAG_X_L - NAVX_REG_UPDATE_RATE_HZ)
    &&& st.raw.mag_y == le_i16(s, NAVX_REG_MAG_Y_L - NAVX_REG_UPDATE_RATE_HZ)
    &&& st.raw.mag_z == le_i16(s, NAVX_REG_MAG_Z_L - NAVX_REG_UPDATE_RATE_HZ)
    &&& st.raw.temp_c == ProtocolFloat::SignedHundredths(le_i16(s, NAVX_REG_MPU_TEMP_C_L - NAVX_REG_UPDATE_RATE_HZ))
    &&& su.update_rate_hz == s[0]
    &&& su.gyro_fsr_dps == le_u16(s, NAVX_REG_GYRO_FSR_DPS_L - NAVX_REG_UPDATE_RATE_HZ)
    &&& su.accel_fsr_g == s[NAVX_REG_ACCEL_FSR_G - NAVX_REG_UPDATE_RATE_HZ] as u16
    &&& su.capability_flags.bits == le_u16(s, NAVX_REG_CAPABILITY_FLAGS_L - NAVX_REG_UPDATE_RATE_HZ)
        & CAPABILITIES_ALL
    &&& displacement <==> st.pos is Some
    &&& st.pos matches Some(p) ==> {
        &&& p.vel_x == ProtocolFloat::Fixed1616(le_u32(s, NAVX_REG_VEL_X_I_L - NAVX_REG_UPDATE_RATE_HZ))
        &&& p.vel_y == ProtocolFloat::Fixed1616(le_u32(s, NAVX_REG_VEL_Y_I_L - NAVX_REG_UPDATE_RATE_HZ))
        &&& p.vel_z == ProtocolFloat::Fixed1616(le_u32(s, NAVX_REG_VEL_Z_I_L - NAVX_REG_UPDATE_RATE_HZ))
        &&& p.disp_x == ProtocolFloat::Fixed1616(le_u32(s, NAVX_REG_DISP_X_I_L - NAVX_REG_UPDATE_RATE_HZ))
        &&& p.disp_y == ProtocolFloat::Fixed1616(le_u32(s, NAVX_REG_DISP_Y_I_L - NAVX_REG_UPDATE_RATE_HZ))
        &&& p.disp_z == ProtocolFloat::Fixed1616(le_u32(s, NAVX_REG_DISP_Z_I_L - NAVX_REG_UPDATE_RATE_HZ))
    }
}

/// A data read decodes each field from its own register: roll from the roll register, pitch
/// from the pitch register, and so on for every field.
pub proof fn lemma_dump_layout(s: Seq<u8>, displacement: bool)
    ensures
        dump_fields(
            s,
            State {
                base: data_base_of(s),
                pos: if displacement {
                    Some(data_pos_of(s))
                } else {
                    None
                },
                raw: data_raw_of(s),
            },
            data_settings_of(s),
            displacement,
        ),
{
}

/// Decodes a register dump that starts at the update-rate register. Positioning data is
/// decoded only when `displacement` is set.
pub fn decode_data(buffer: &[u8], displacement: bool) -> (r: (State, StateUpdate))
    requires
        buffer@.len() >= DATA_READ_LENGTH,
        displacement ==> buffer@.len() >= DATA_READ_LENGTH_WITH_DISPLACEMENT,
    ensures
        r.0.base == data_base_of(buffer@),
        r.0.pos == (if displacement {
            Some(data_pos_of(buffer@))
        } else {
            None
        }),
        r.0.raw == data_raw_of(buffer@),
        r.1 == data_settings_of(buffer@),
        dump_fields(buffer@, r.0, r.1, displacement),
{
    proof {
        lemma_dump_layout(buffer@, displacement);
    }
    let start = NAVX_REG_UPDATE_RATE_HZ;
    let base = AHRSUpdateBase {
        yaw: ProtocolFloat::SignedHundredths(decode_i16(buffer, NAVX_REG_YAW_L - start)),
        pitch: ProtocolFloat::SignedHundredths(decode_i16(buffer, NAVX_REG_PITCH_L - start)),
        roll: ProtocolFloat::SignedHundredths(decode_i16(buffer, NAVX_REG_ROLL_L - start)),
        compass_heading: ProtocolFloat::UnsignedHundredths(
            decode_u16(buffer, NAVX_REG_HEADING_L - start),
        ),
        altitude: ProtocolFloat::Fixed1616(decode_u32(buffer, NAVX_REG_ALTITUDE_D_L - start)),
        fused_heading: ProtocolFloat::UnsignedHundredths(
            decode_u16(buffer, NAVX_REG_FUSED_HEADING_L - start),
        ),
        linear_accel_x: ProtocolFloat::Thousandths(
            decode_u16(buffer, NAVX_REG_LINEAR_ACC_X_L - start),
        ),
        linear_accel_y: ProtocolFloat::Thousandths(
            decode_u16(buffer, NAVX_REG_LINEAR_ACC_Y_L - start),
        ),
        linear_accel_z: ProtocolFloat::Thousandths(
            decode_u16(buffer, NAVX_REG_LINEAR_ACC_Z_L - start),
        ),
        mpu_temp: ProtocolFloat::SignedHundredths(decode_i16(buffer, NAVX_REG_MPU_TEMP_C_L - start)),
        quat_w: ProtocolFloat::QuaternionI16(decode_i16(buffer, NAVX_REG_QUAT_W_L - start)),
        quat_x: ProtocolFloat::QuaternionI16(decode_i16(buffer, NAVX_REG_QUAT_X_L - start)),
        quat_y: ProtocolFloat::QuaternionI16(decode_i16(buffer, NAVX_REG_QUAT_Y_L - start)),
        quat_z: ProtocolFloat::QuaternionI16(decode_i16(buffer, NAVX_REG_QUAT_Z_L - start)),
        barometric_pressure: ProtocolFloat::Fixed1616(
            decode_u32(buffer, NAVX_REG_PRESSURE_DL - start),
        ),
        op_status: buffer[NAVX_REG_OP_STATUS - start],
        sensor_status: buffer[NAVX_REG_SENSOR_STATUS_L - start],
        cal_status: buffer[NAVX_REG_CAL_STATUS - start],
        selftest_status: buffer[NAVX_REG_SELFTEST_STATUS - start],
    };
    let pos = if displacement {
        Some(
            AHRSPosUpdate {
                vel_x: ProtocolFloat::Fixed1616(decode_u32(buffer, NAVX_REG_VEL_X_I_L - start)),
                vel_y: ProtocolFloat::Fixed1616(decode_u32(buffer, NAVX_REG_VEL_Y_I_L - start)),
                vel_z: ProtocolFloat::Fixed1616(decode_u32(buffer, NAVX_REG_VEL_Z_I_L - start)),
                disp_x: ProtocolFloat::Fixed1616(decode_u32(buffer, NAVX_REG_DISP_X_I_L - start)),
                disp_y: ProtocolFloat::Fixed1616(decode_u32(buffer, NAVX_REG_DISP_Y_I_L - start)),
                disp_z: ProtocolFloat::Fixed1616(decode_u32(buffer, NAVX_REG_DISP_Z_I_L - start)),
            },
        )
    } else {
        None
    };
    let board_state = StateUpdate {
        update_rate_hz: buffer[NAVX_REG_UPDATE_RATE_HZ - start],
        gyro_fsr_dps: decode_u16(buffer, NAVX_REG_GYRO_FSR_DPS_L - start),
        accel_fsr_g: buffer[NAVX_REG_ACCEL_FSR_G - start] as u16,
        capability_flags: Capabilities::from_bits_truncate(
            decode_u16(buffer, NAVX_REG_CAPABILITY_FLAGS_L - start),
        ),
    };
    let raw = GyroUpdate {
        gyro_x: decode_i16(buffer, NAVX_REG_GYRO_X_L - start),
        gyro_y: decode_i16(buffer, NAVX_REG_GYRO_Y_L - start),
        gyro_z: decode_i16(buffer, NAVX_REG_GYRO_Z_L - start),
        accel_x: decode_i16(buffer, NAVX_REG_ACC_X_L - start),
        accel_y: decode_i16(buffer, NAVX_REG_ACC_Y_L - start),
        accel_z: decode_i16(buffer, NAVX_REG_ACC_Z_L - start),
        mag_x: decode_i16(buffer, NAVX_REG_MAG_X_L - start),
        mag_y: decode_i16(buffer, NAVX_REG_MAG_Y_L - start),
        mag_z: decode_i16(buffer, NAVX_REG_MAG_Z_L - start),
        temp_c: base.mpu_temp,
    };
    (State { base, pos, raw }, board_state)
}

// ---------------------------------------------------------------------------------------------
// SPI frame CRC
// ---------------------------------------------------------------------------------------------

/// One shift of the CRC register: the polynomial 145 is folded in when the low bit is set.
pub open spec fn crc_shift(c: u8) -> u8 {
    if c & 1 != 0 {
        (c ^ 145u8) >> 1u8
    } else {
        c >> 1u8
    }
}

/// `n` shifts of the CRC register.
pub open spec fn crc_shifts(c: u8, n: nat) -> u8
    decreases n,
{
    if n == 0 {
        c
    } else {
        crc_shift(crc_shifts(c, (n - 1) as nat))
    }
}

/// The CRC of `s`: the register starts at zero; each byte is folded in, then the register is
/// shifted eight times.
pub open spec fn crc_of(s: Seq<u8>) -> u8
    decreases s.len(),
{
    if s.len() == 0 {
        0
    } else {
        crc_shifts(crc_of(s.drop_last()) ^ (0xffu8 & s.last()), 8)
    }
}

/// The CRC that the navX appends to SPI frames.
pub fn get_crc(data: &[u8]) -> (crc: u8)
    ensures
        crc == crc_of(data@),
{
    let mut crc: u8 = 0;
    let mut k: usize = 0;
    while k < data.len()
        invariant
            k <= data@.len(),
            crc == crc_of(data@.subrange(0, k as int)),
        decreases data@.len() - k,
    {
        let byte = data[k];
        assert(data@.subrange(0, k + 1).drop_last() =~= data@.subrange(0, k as int));
        let ghost start = crc ^ (0xffu8 & byte);
        crc ^= 0xffu8 & byte;
        let mut i: usize = 0;
        while i < 8
            invariant
                i <= 8,
                crc == crc_shifts(start, i as nat),
            decreases 8 - i,
        {
            if crc & 1 != 0 {
                crc ^= 145;
            }
            crc = crc >> 1;
            i += 1;
        }
        k += 1;
    }
    assert(data@.subrange(0, data@.len() as int) =~= data@);
    crc
}


// ---------------------------------------------------------------------------------------------
// SPI framing
// ---------------------------------------------------------------------------------------------

/// The SPI frame that writes `value` to register `address`: the address with the write bit
/// set, the value, and the CRC of both.
pub fn write_command(address: u8, value: u8) -> (frame: [u8; 3])
    ensures
        frame@ == seq![address | 0x80u8, value, crc_of(seq![address | 0x80u8, value])],
{
    let first = address | 0x80;
    let crc = get_crc(&[first, value]);
    proof {
        assert(seq![first, value] =~= [first, value]@);
    }
    [first, value, crc]
}

/// The SPI frame that requests `len` bytes starting at register `address`: the address, the
/// length as a byte (its low eight bits), and the CRC of both.
pub fn read_command(address: u8, len: usize) -> (frame: [u8; 3])
    ensures
        frame@ == seq![address, len as u8, crc_of(seq![address, len as u8])],
{
    let count = len as u8;
    let crc = get_crc(&[address, count]);
    proof {
        assert(seq![address, count] =~= [address, count]@);
    }
    [address, count, crc]
}

/// Whether a register read came back intact: the CRC byte that followed it matches, and its
/// first four bytes are not all zero.
pub fn read_response_ok(buffer: &[u8], check: u8) -> (ok: bool)
    requires
        buffer@.len() >= 4,
    ensures
        ok == (crc_of(buffer@) == check && !(buffer@[0] == 0 && buffer@[1] == 0 && buffer@[2] == 0
            && buffer@[3] == 0)),
{
    let crc = get_crc(buffer);
    let all_zero = buffer[0] == 0 && buffer[1] == 0 && buffer[2] == 0 && buffer[3] == 0;
    !(crc != check || all_zero)
}

// ---------------------------------------------------------------------------------------------
// The polling loop
// ---------------------------------------------------------------------------------------------

/// How many bytes a data read takes: the registers up to the last one when the board reports
/// displacement, else up to the quaternion offset.
pub fn data_read_length(displacement: bool) -> (n: usize)
    ensures
        n == (if displacement {
            NAVX_REG_LAST + 1 - NAVX_REG_UPDATE_RATE_HZ
        } else {
            NAVX_REG_QUAT_OFFSET_Z_H + 1 - NAVX_REG_UPDATE_RATE_HZ
        }),
        n == (if displacement {
            DATA_READ_LENGTH_WITH_DISPLACEMENT
        } else {
            DATA_READ_LENGTH
        }),
{
    if displacement {
        NAVX_REG_LAST + 1 - NAVX_REG_UPDATE_RATE_HZ
    } else {
        NAVX_REG_QUAT_OFFSET_Z_H + 1 - NAVX_REG_UPDATE_RATE_HZ
    }
}

/// What the polling loop does after a data read: whether to write the update rate again (the
/// board reports another rate than the one asked for), and whether the next read includes
/// displacement (the board reports that capability).
pub fn after_data_read(update: &StateUpdate, update_rate: u8) -> (r: (bool, bool))
    ensures
        r.0 == (update.update_rate_hz != update_rate),
        r.1 == (update.capability_flags.bits & Capabilities::DISPLACEMENT == Capabilities::DISPLACEMENT),
{
    let rewrite = update.update_rate_hz != update_rate;
    let displacement = update.capability_flags.contains(Capabilities::DISPLACEMENT);
    (rewrite, displacement)
}

} // verus!
