use robotrs::ctre::{
    error_from_code, to_result, to_result_with_value, CtreError, DemandType, IdleMode, VictorSPXControlMode,
};

const KNOWN: [CtreError; 8] = [
    CtreError::CanMsgStale,
    CtreError::CanBufferFull,
    CtreError::GeneralError,
    CtreError::FirmwareInvalidResponse,
    CtreError::PulseWidthSensorNotPresent,
    CtreError::MotProfFirmThreshold2,
    CtreError::SimDeviceAlreadyExists,
    CtreError::MusicNotSupported,
];

#[test]
fn error_codes_match_library() {
    assert_eq!(CtreError::CanMsgStale.code(), 1);
    assert_eq!(CtreError::CanBufferFull.code(), 6);
    assert_eq!(CtreError::CanOverflow.code(), -6);
    assert_eq!(CtreError::GeneralError.code(), -100);
    assert_eq!(CtreError::FirmwareInvalidResponse.code(), -1015);
    assert_eq!(CtreError::SimDeviceAlreadyExists.code(), 202);
}

#[test]
fn error_code_roundtrip_on_samples() {
    for e in KNOWN {
        assert_eq!(to_result(e.code()), Err(e));
    }
}

#[test]
fn zero_code_is_success() {
    assert_eq!(to_result(0), Ok(()));
    assert_eq!(to_result_with_value(0, 42u8), Ok(42));
}

#[test]
fn nonzero_code_is_error() {
    assert_eq!(to_result_with_value(-7, "x"), Err(CtreError::SensorNotPresent));
    assert_eq!(to_result(105), Err(CtreError::ControlModeNotValid));
}

#[test]
fn error_messages() {
    assert_eq!(CtreError::CanMsgStale.message(), "The CAN message was stale");
    assert_eq!(CtreError::SimDeviceNotFound.message(), "Sim Device Not Found");
}

#[test]
fn mode_numbers() {
    assert_eq!(VictorSPXControlMode::PercentOutput.to_i32(), 0);
    assert_eq!(VictorSPXControlMode::Follower.to_i32(), 5);
    assert_eq!(VictorSPXControlMode::MotionProfileArc.to_i32(), 10);
    assert_eq!(VictorSPXControlMode::Disabled.to_i32(), 15);
    assert_eq!(DemandType::ArbitraryFeedForward.to_i32(), 2);
    assert_eq!(IdleMode::Coast.to_i32(), 1);
    assert_eq!(IdleMode::Brake.to_i32(), 2);
}

#[test]
fn error_from_code_names_known_codes_only() {
    assert_eq!(error_from_code(-7), Some(CtreError::SensorNotPresent));
    assert_eq!(error_from_code(0), None);
    assert_eq!(error_from_code(2), None);
    assert_eq!(error_from_code(300), None);
    assert_eq!(CtreError::CanMsgStale.message(), "The CAN message was stale");
}
