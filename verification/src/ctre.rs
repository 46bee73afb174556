//! Error codes reported by the CTRE motor controller library, and the motor controller modes
//! passed to it.
use vstd::prelude::*;

verus! {

/// An error reported by the CTRE library.
#[derive(Clone, Copy, Debug, PartialEq, Eq)]
pub enum CtreError {
    /// The CAN message was stale
    CanMsgStale,
    /// A can message could be not transmitted
    CanTransmissionError,
    /// Caller passed an invalid param
    InvalidParamValue,
    /// CAN frame could not be recieved properly
    RxError,
    /// A transmisson error occured
    TxError,
    /// Specified device id is invalid or no more can sessions avaliable
    CanIdError,
    /// CAN buffer was full and message could not be sent
    CanBufferFull,
    /// The CAN bus has overflowed
    CanOverflow,
    /// Sensor is not present
    SensorNotPresent,
    /// Device firmware is too old, please update
    FirmwareTooOld,
    /// Could not change period
    CouldNotChangePeriod,
    /// CAN buffer has failed
    BufferFailure,
    /// Firmware was of incorect type
    FirmwareNonFRC,
    /// A general error has occured
    GeneralError,
    /// Have not received an value response for signal
    SigNotUpdated,
    /// Not all PID values where updated (signal error)
    NotAllPIDValuesUpdated,
    /// General Port Error
    GenPortError,
    /// Port Module Type Mismatch
    PortModuleTypeMismatch,
    /// General Module Error
    GenModuleError,
    /// Module Not Initialized (Set)
    ModuleNotInitSetError,
    /// Module Not Initialized (Get)
    ModuleNotInitGetError,
    /// Wheel Radius Too Small
    WheelRadiusTooSmall,
    /// Ticks Per Revolution is Zero
    TicksPerRevZero,
    /// Distance Between Wheels Too Small
    DistanceBetweenWheelsTooSmall,
    /// Gains Are Not Set
    GainsAreNotSet,
    /// Wrong Remote Limit Switch Source
    WrongRemoteLimitSwitchSource,
    /// Double Voltage Compensating WPI
    DoubleVoltageCompensatingWPI,
    /// CANdle Animation Slot Out of Bounds
    CANdleAnimSlotOutOfBounds,
    /// Incompatible Mode
    IncompatibleMode,
    /// Invalid Handle
    InvalidHandle,
    /// Feature Requires Higher Firmware Version
    FeatureRequiresHigherFirm,
    /// Motor Controller Feature Requires Higher Firmware Version
    MotorControllerFeatureRequiresHigherFirm,
    /// Config Factory Default Requires Higher Firmware Version
    ConfigFactoryDefaultRequiresHigherFirm,
    /// Config Motion S-Curve Requires Higher Firmware Version
    ConfigMotionSCurveRequiresHigherFirm,
    /// TalonFX Firmware Pre-VBat Detect
    TalonFXFirmwarePreVBatDetect,
    /// CANdle Animations Require Higher Firmware Version
    CANdleAnimationsRequireHigherFirm,
    /// Library Could Not Be Loaded
    LibraryCouldNotBeLoaded,
    /// Missing Routine in Library
    MissingRoutineInLibrary,
    /// Resource Not Available
    ResourceNotAvailable,
    /// Music File Not Found
    MusicFileNotFound,
    /// Music File Wrong Size
    MusicFileWrongSize,
    /// Music File Too New
    MusicFileTooNew,
    /// Music File Invalid
    MusicFileInvalid,
    /// Invalid Orchestra Action
    InvalidOrchestraAction,
    /// Music File Too Old
    MusicFileTooOld,
    /// Music Interrupted
    MusicInterrupted,
    /// Music Not Supported
    MusicNotSupported,
    /// Invalid Interface
    InvalidInterface,
    /// Invalid GUID
    InvalidGuid,
    /// Invalid Class
    InvalidClass,
    /// Invalid Protocol
    InvalidProtocol,
    /// Invalid Path
    InvalidPath,
    /// General WinUsb Error
    GeneralWinUsbError,
    /// Failed Setup
    FailedSetup,
    /// Listen Failed
    ListenFailed,
    /// Send Failed
    SendFailed,
    /// Receive Failed
    ReceiveFailed,
    /// Invalid Response Format
    InvalidRespFormat,
    /// WinUsb Init Failed
    WinUsbInitFailed,
    /// WinUsb Query Failed
    WinUsbQueryFailed,
    /// WinUsb General Error
    WinUsbGeneralError,
    /// Access Denied
    AccessDenied,
    /// Firmware Invalid Response
    FirmwareInvalidResponse,
    /// Pulse Width Sensor Not Present
    PulseWidthSensorNotPresent,
    /// General Warning
    GeneralWarning,
    /// Feature Not Supported
    FeatureNotSupported,
    /// Not Implemented
    NotImplemented,
    /// Firmware Version Could Not Be Retrieved
    FirmVersionCouldNotBeRetrieved,
    /// Features Not Available Yet
    FeaturesNotAvailableYet,
    /// Control Mode Not Valid
    ControlModeNotValid,
    /// Control Mode Not Supported Yet
    ControlModeNotSupportedYet,
    /// PID Type Not Supported Yet
    PIDTypeNotSupportedYet,
    /// Remote Sensors Not Supported Yet
    RemoteSensorsNotSupportedYet,
    /// Motion Profile Firmware Threshold
    MotProfFirmThreshold,
    /// Motion Profile Firmware Threshold 2
    MotProfFirmThreshold2,
    /// Sim Device Not Found
    SimDeviceNotFound,
    /// Sim Physics Type Not Supported
    SimPhysicsTypeNotSupported,
    /// Sim Device Already Exists
    SimDeviceAlreadyExists,
}

/// The numeric code of each error.
pub open spec fn error_code(e: CtreError) -> i32 {
    match e {
        CtreError::CanMsgStale => 1i32,
        CtreError::CanTransmissionError => -1i32,
        CtreError::InvalidParamValue => -2i32,
        CtreError::RxError => -3i32,
        CtreError::TxError => -4i32,
        CtreError::CanIdError => -5i32,
        CtreError::CanBufferFull => 6i32,
        CtreError::CanOverflow => -6i32,
        CtreError::SensorNotPresent => -7i32,
        CtreError::FirmwareTooOld => -8i32,
        CtreError::CouldNotChangePeriod => -9i32,
        CtreError::BufferFailure => -10i32,
        CtreError::FirmwareNonFRC => -11i32,
        CtreError::GeneralError => -100i32,
        CtreError::SigNotUpdated => -200i32,
        CtreError::NotAllPIDValuesUpdated => -201i32,
        CtreError::GenPortError => -300i32,
        CtreError::PortModuleTypeMismatch => -301i32,
        CtreError::GenModuleError => -400i32,
        CtreError::ModuleNotInitSetError => -401i32,
        CtreError::ModuleNotInitGetError => -402i32,
        CtreError::WheelRadiusTooSmall => -500i32,
        CtreError::TicksPerRevZero => -501i32,
        CtreError::DistanceBetweenWheelsTooSmall => -502i32,
        CtreError::GainsAreNotSet => -503i32,
        CtreError::WrongRemoteLimitSwitchSource => -504i32,
        CtreError::DoubleVoltageCompensatingWPI => -505i32,
        CtreError::CANdleAnimSlotOutOfBounds => -506i32,
        CtreError::IncompatibleMode => -600i32,
        CtreError::InvalidHandle => -601i32,
        CtreError::FeatureRequiresHigherFirm => -700i32,
        CtreError::MotorControllerFeatureRequiresHigherFirm => -701i32,
        CtreError::ConfigFactoryDefaultRequiresHigherFirm => -702i32,
        CtreError::ConfigMotionSCurveRequiresHigherFirm => -703i32,
        CtreError::TalonFXFirmwarePreVBatDetect => -704i32,
        CtreError::CANdleAnimationsRequireHigherFirm => -705i32,
        CtreError::LibraryCouldNotBeLoaded => -800i32,
        CtreError::MissingRoutineInLibrary => -801i32,
        CtreError::ResourceNotAvailable => -802i32,
        CtreError::MusicFileNotFound => -900i32,
        CtreError::MusicFileWrongSize => -901i32,
        CtreError::MusicFileTooNew => -902i32,
        CtreError::MusicFileInvalid => -903i32,
        CtreError::InvalidOrchestraAction => -904i32,
        CtreError::MusicFileTooOld => -905i32,
        CtreError::MusicInterrupted => -906i32,
        CtreError::MusicNotSupported => -907i32,
        CtreError::InvalidInterface => -1000i32,
        CtreError::InvalidGuid => -1001i32,
        CtreError::InvalidClass => -1002i32,
        CtreError::InvalidProtocol => -1003i32,
        CtreError::InvalidPath => -1004i32,
        CtreError::GeneralWinUsbError => -1005i32,
        CtreError::FailedSetup => -1006i32,
        CtreError::ListenFailed => -1007i32,
        CtreError::SendFailed => -1008i32,
        CtreError::ReceiveFailed => -1009i32,
        CtreError::InvalidRespFormat => -1010i32,
        CtreError::WinUsbInitFailed => -1011i32,
        CtreError::WinUsbQueryFailed => -1012i32,
        CtreError::WinUsbGeneralError => -1013i32,
        CtreError::AccessDenied => -1014i32,
        CtreError::FirmwareInvalidResponse => -1015i32,
        CtreError::PulseWidthSensorNotPresent => 10i32,
        CtreError::GeneralWarning => 100i32,
        CtreError::FeatureNotSupported => 101i32,
        CtreError::NotImplemented => 102i32,
        CtreError::FirmVersionCouldNotBeRetrieved => 103i32,
        CtreError::FeaturesNotAvailableYet => 104i32,
        CtreError::ControlModeNotValid => 105i32,
        CtreError::ControlModeNotSupportedYet => 106i32,
        CtreError::PIDTypeNotSupportedYet => 107i32,
        CtreError::RemoteSensorsNotSupportedYet => 108i32,
        CtreError::MotProfFirmThreshold => 109i32,
        CtreError::MotProfFirmThreshold2 => 110i32,
        CtreError::SimDeviceNotFound => 200i32,
        CtreError::SimPhysicsTypeNotSupported => 201i32,
        CtreError::SimDeviceAlreadyExists => 202i32,
    }
}

/// The error that a nonzero code stands for, if any.
pub open spec fn error_of_code(code: i32) -> Option<CtreError> {
    match code {
        1 => Some(CtreError::CanMsgStale),
        -1 => Some(CtreError::CanTransmissionError),
        -2 => Some(CtreError::InvalidParamValue),
        -3 => Some(CtreError::RxError),
        -4 => Some(CtreError::TxError),
        -5 => Some(CtreError::CanIdError),
        6 => Some(CtreError::CanBufferFull),
        -6 => Some(CtreError::CanOverflow),
        -7 => Some(CtreError::SensorNotPresent),
        -8 => Some(CtreError::FirmwareTooOld),
        -9 => Some(CtreError::CouldNotChangePeriod),
        -10 => Some(CtreError::BufferFailure),
        -11 => Some(CtreError::FirmwareNonFRC),
        -100 => Some(CtreError::GeneralError),
        -200 => Some(CtreError::SigNotUpdated),
        -201 => Some(CtreError::NotAllPIDValuesUpdated),
        -300 => Some(CtreError::GenPortError),
        -301 => Some(CtreError::PortModuleTypeMismatch),
        -400 => Some(CtreError::GenModuleError),
        -401 => Some(CtreError::ModuleNotInitSetError),
        -402 => Some(CtreError::ModuleNotInitGetError),
        -500 => Some(CtreError::WheelRadiusTooSmall),
        -501 => Some(CtreError::TicksPerRevZero),
        -502 => Some(CtreError::DistanceBetweenWheelsTooSmall),
        -503 => Some(CtreError::GainsAreNotSet),
        -504 => Some(CtreError::WrongRemoteLimitSwitchSource),
        -505 => Some(CtreError::DoubleVoltageCompensatingWPI),
        -506 => Some(CtreError::CANdleAnimSlotOutOfBounds),
        -600 => Some(CtreError::IncompatibleMode),
        -601 => Some(CtreError::InvalidHandle),
        -700 => Some(CtreError::FeatureRequiresHigherFirm),
        -701 => Some(CtreError::MotorControllerFeatureRequiresHigherFirm),
        -702 => Some(CtreError::ConfigFactoryDefaultRequiresHigherFirm),
        -703 => Some(CtreError::ConfigMotionSCurveRequiresHigherFirm),
        -704 => Some(CtreError::TalonFXFirmwarePreVBatDetect),
        -705 => Some(CtreError::CANdleAnimationsRequireHigherFirm),
        -800 => Some(CtreError::LibraryCouldNotBeLoaded),
        -801 => Some(CtreError::MissingRoutineInLibrary),
        -802 => Some(CtreError::ResourceNotAvailable),
        -900 => Some(CtreError::MusicFileNotFound),
        -901 => Some(CtreError::MusicFileWrongSize),
        -902 => Some(CtreError::MusicFileTooNew),
        -903 => Some(CtreError::MusicFileInvalid),
        -904 => Some(CtreError::InvalidOrchestraAction),
        -905 => Some(CtreError::MusicFileTooOld),
        -906 => Some(CtreError::MusicInterrupted),
        -907 => Some(CtreError::MusicNotSupported),
        -1000 => Some(CtreError::InvalidInterface),
        -1001 => Some(CtreError::InvalidGuid),
        -1002 => Some(CtreError::InvalidClass),
        -1003 => Some(CtreError::InvalidProtocol),
        -1004 => Some(CtreError::InvalidPath),
        -1005 => Some(CtreError::GeneralWinUsbError),
        -1006 => Some(CtreError::FailedSetup),
        -1007 => Some(CtreError::ListenFailed),
        -1008 => Some(CtreError::SendFailed),
        -1009 => Some(CtreError::ReceiveFailed),
        -1010 => Some(CtreError::InvalidRespFormat),
        -1011 => Some(CtreError::WinUsbInitFailed),
        -1012 => Some(CtreError::WinUsbQueryFailed),
        -1013 => Some(CtreError::WinUsbGeneralError),
        -1014 => Some(CtreError::AccessDenied),
        -1015 => Some(CtreError::FirmwareInvalidResponse),
        10 => Some(CtreError::PulseWidthSensorNotPresent),
        100 => Some(CtreError::GeneralWarning),
        101 => Some(CtreError::FeatureNotSupported),
        102 => Some(CtreError::NotImplemented),
        103 => Some(CtreError::FirmVersionCouldNotBeRetrieved),
        104 => Some(CtreError::FeaturesNotAvailableYet),
        105 => Some(CtreError::ControlModeNotValid),
        106 => Some(CtreError::ControlModeNotSupportedYet),
        107 => Some(CtreError::PIDTypeNotSupportedYet),
        108 => Some(CtreError::RemoteSensorsNotSupportedYet),
        109 => Some(CtreError::MotProfFirmThreshold),
        110 => Some(CtreError::MotProfFirmThreshold2),
        200 => Some(CtreError::SimDeviceNotFound),
        201 => Some(CtreError::SimPhysicsTypeNotSupported),
        202 => Some(CtreError::SimDeviceAlreadyExists),
        _ => None,
    }
}

impl CtreError {
    /// The numeric code of this error.
    pub fn code(&self) -> (c: i32)
        ensures
            c == error_code(*self),
    {
        match self {
            CtreError::CanMsgStale => 1,
            CtreError::CanTransmissionError => -1,
            CtreError::InvalidParamValue => -2,
            CtreError::RxError => -3,
            CtreError::TxError => -4,
            CtreError::CanIdError => -5,
            CtreError::CanBufferFull => 6,
            CtreError::CanOverflow => -6,
            CtreError::SensorNotPresent => -7,
            CtreError::FirmwareTooOld => -8,
            CtreError::CouldNotChangePeriod => -9,
            CtreError::BufferFailure => -10,
            CtreError::FirmwareNonFRC => -11,
            CtreError::GeneralError => -100,
            CtreError::SigNotUpdated => -200,
            CtreError::NotAllPIDValuesUpdated => -201,
            CtreError::GenPortError => -300,
            CtreError::PortModuleTypeMismatch => -301,
            CtreError::GenModuleError => -400,
            CtreError::ModuleNotInitSetError => -401,
            CtreError::ModuleNotInitGetError => -402,
            CtreError::WheelRadiusTooSmall => -500,
            CtreError::TicksPerRevZero => -501,
            CtreError::DistanceBetweenWheelsTooSmall => -502,
            CtreError::GainsAreNotSet => -503,
            CtreError::WrongRemoteLimitSwitchSource => -504,
            CtreError::DoubleVoltageCompensatingWPI => -505,
            CtreError::CANdleAnimSlotOutOfBounds => -506,
            CtreError::IncompatibleMode => -600,
            CtreError::InvalidHandle => -601,
            CtreError::FeatureRequiresHigherFirm => -700,
            CtreError::MotorControllerFeatureRequiresHigherFirm => -701,
            CtreError::ConfigFactoryDefaultRequiresHigherFirm => -702,
            CtreError::ConfigMotionSCurveRequiresHigherFirm => -703,
            CtreError::TalonFXFirmwarePreVBatDetect => -704,
            CtreError::CANdleAnimationsRequireHigherFirm => -705,
            CtreError::LibraryCouldNotBeLoaded => -800,
            CtreError::MissingRoutineInLibrary => -801,
            CtreError::ResourceNotAvailable => -802,
            CtreError::MusicFileNotFound => -900,
            CtreError::MusicFileWrongSize => -901,
            CtreError::MusicFileTooNew => -902,
            CtreError::MusicFileInvalid => -903,
            CtreError::InvalidOrchestraAction => -904,
            CtreError::MusicFileTooOld => -905,
            CtreError::MusicInterrupted => -906,
            CtreError::MusicNotSupported => -907,
            CtreError::InvalidInterface => -1000,
            CtreError::InvalidGuid => -1001,
            CtreError::InvalidClass => -1002,
            CtreError::InvalidProtocol => -1003,
            CtreError::InvalidPath => -1004,
            CtreError::GeneralWinUsbError => -1005,
            CtreError::FailedSetup => -1006,
            CtreError::ListenFailed => -1007,
            CtreError::SendFailed => -1008,
            CtreError::ReceiveFailed => -1009,
            CtreError::InvalidRespFormat => -1010,
            CtreError::WinUsbInitFailed => -1011,
            CtreError::WinUsbQueryFailed => -1012,
            CtreError::WinUsbGeneralError => -1013,
            CtreError::AccessDenied => -1014,
            CtreError::FirmwareInvalidResponse => -1015,
            CtreError::PulseWidthSensorNotPresent => 10,
            CtreError::GeneralWarning => 100,
            CtreError::FeatureNotSupported => 101,
            CtreError::NotImplemented => 102,
            CtreError::FirmVersionCouldNotBeRetrieved => 103,
            CtreError::FeaturesNotAvailableYet => 104,
            CtreError::ControlModeNotValid => 105,
            CtreError::ControlModeNotSupportedYet => 106,
            CtreError::PIDTypeNotSupportedYet => 107,
            CtreError::RemoteSensorsNotSupportedYet => 108,
            CtreError::MotProfFirmThreshold => 109,
            CtreError::MotProfFirmThreshold2 => 110,
            CtreError::SimDeviceNotFound => 200,
            CtreError::SimPhysicsTypeNotSupported => 201,
            CtreError::SimDeviceAlreadyExists => 202,
        }
    }

    /// The description of this error, as text.
    pub open spec fn message_text(&self) -> Seq<char> {
        match self {
            CtreError::CanMsgStale => "The CAN message was stale"@,
            CtreError::CanTransmissionError => "A can message could be not transmitted"@,
            CtreError::InvalidParamValue => "Caller passed an invalid param"@,
            CtreError::RxError => "CAN frame could not be recieved properly"@,
            CtreError::TxError => "A transmisson error occured"@,
            CtreError::CanIdError => "Specified device id is invalid or no more can sessions avaliable"@,
            CtreError::CanBufferFull => "CAN buffer was full and message could not be sent"@,
            CtreError::CanOverflow => "The CAN bus has overflowed"@,
            CtreError::SensorNotPresent => "Sensor is not present"@,
            CtreError::FirmwareTooOld => "Device firmware is too old, please update"@,
            CtreError::CouldNotChangePeriod => "Could not change period"@,
            CtreError::BufferFailure => "CAN buffer has failed"@,
            CtreError::FirmwareNonFRC => "Firmware was of incorect type"@,
            CtreError::GeneralError => "A general error has occured"@,
            CtreError::SigNotUpdated => "Have not received an value response for signal"@,
            CtreError::NotAllPIDValuesUpdated => "Not all PID values where updated (signal error)"@,
            CtreError::GenPortError => "General Port Error"@,
            CtreError::PortModuleTypeMismatch => "Port Module Type Mismatch"@,
            CtreError::GenModuleError => "General Module Error"@,
            CtreError::ModuleNotInitSetError => "Module Not Initialized (Set)"@,
            CtreError::ModuleNotInitGetError => "Module Not Initialized (Get)"@,
            CtreError::WheelRadiusTooSmall => "Wheel Radius Too Small"@,
            CtreError::TicksPerRevZero => "Ticks Per Revolution is Zero"@,
            CtreError::DistanceBetweenWheelsTooSmall => "Distance Between Wheels Too Small"@,
            CtreError::GainsAreNotSet => "Gains Are Not Set"@,
            CtreError::WrongRemoteLimitSwitchSource => "Wrong Remote Limit Switch Source"@,
            CtreError::DoubleVoltageCompensatingWPI => "Double Voltage Compensating WPI"@,
            CtreError::CANdleAnimSlotOutOfBounds => "CANdle Animation Slot Out of Bounds"@,
            CtreError::IncompatibleMode => "Incompatible Mode"@,
            CtreError::InvalidHandle => "Invalid Handle"@,
            CtreError::FeatureRequiresHigherFirm => "Feature Requires Higher Firmware Version"@,
            CtreError::MotorControllerFeatureRequiresHigherFirm => "Motor Controller Feature Requires Higher Firmware Version"@,
            CtreError::ConfigFactoryDefaultRequiresHigherFirm => "Config Factory Default Requires Higher Firmware Version"@,
            CtreError::ConfigMotionSCurveRequiresHigherFirm => "Config Motion S-Curve Requires Higher Firmware Version"@,
            CtreError::TalonFXFirmwarePreVBatDetect => "TalonFX Firmware Pre-VBat Detect"@,
            CtreError::CANdleAnimationsRequireHigherFirm => "CANdle Animations Require Higher Firmware Version"@,
            CtreError::LibraryCouldNotBeLoaded => "Library Could Not Be Loaded"@,
            CtreError::MissingRoutineInLibrary => "Missing Routine in Library"@,
            CtreError::ResourceNotAvailable => "Resource Not Available"@,
            CtreError::MusicFileNotFound => "Music File Not Found"@,
            CtreError::MusicFileWrongSize => "Music File Wrong Size"@,
            CtreError::MusicFileTooNew => "Music File Too New"@,
            CtreError::MusicFileInvalid => "Music File Invalid"@,
            CtreError::InvalidOrchestraAction => "Invalid Orchestra Action"@,
            CtreError::MusicFileTooOld => "Music File Too Old"@,
            CtreError::MusicInterrupted => "Music Interrupted"@,
            CtreError::MusicNotSupported => "Music Not Supported"@,
            CtreError::InvalidInterface => "Invalid Interface"@,
            CtreError::InvalidGuid => "Invalid GUID"@,
            CtreError::InvalidClass => "Invalid Class"@,
            CtreError::InvalidProtocol => "Invalid Protocol"@,
            CtreError::InvalidPath => "Invalid Path"@,
            CtreError::GeneralWinUsbError => "General WinUsb Error"@,
            CtreError::FailedSetup => "Failed Setup"@,
            CtreError::ListenFailed => "Listen Failed"@,
            CtreError::SendFailed => "Send Failed"@,
            CtreError::ReceiveFailed => "Receive Failed"@,
            CtreError::InvalidRespFormat => "Invalid Response Format"@,
            CtreError::WinUsbInitFailed => "WinUsb Init Failed"@,
            CtreError::WinUsbQueryFailed => "WinUsb Query Failed"@,
            CtreError::WinUsbGeneralError => "WinUsb General Error"@,
            CtreError::AccessDenied => "Access Denied"@,
            CtreError::FirmwareInvalidResponse => "Firmware Invalid Response"@,
            CtreError::PulseWidthSensorNotPresent => "Pulse Width Sensor Not Present"@,
            CtreError::GeneralWarning => "General Warning"@,
            CtreError::FeatureNotSupported => "Feature Not Supported"@,
            CtreError::NotImplemented => "Not Implemented"@,
            CtreError::FirmVersionCouldNotBeRetrieved => "Firmware Version Could Not Be Retrieved"@,
            CtreError::FeaturesNotAvailableYet => "Features Not Available Yet"@,
            CtreError::ControlModeNotValid => "Control Mode Not Valid"@,
            CtreError::ControlModeNotSupportedYet => "Control Mode Not Supported Yet"@,
            CtreError::PIDTypeNotSupportedYet => "PID Type Not Supported Yet"@,
            CtreError::RemoteSensorsNotSupportedYet => "Remote Sensors Not Supported Yet"@,
            CtreError::MotProfFirmThreshold => "Motion Profile Firmware Threshold"@,
            CtreError::MotProfFirmThreshold2 => "Motion Profile Firmware Threshold 2"@,
            CtreError::SimDeviceNotFound => "Sim Device Not Found"@,
            CtreError::SimPhysicsTypeNotSupported => "Sim Physics Type Not Supported"@,
            CtreError::SimDeviceAlreadyExists => "Sim Device Already Exists"@,
        }
    }

    /// The description of this error.
    pub fn message(&self) -> (m: &'static str)
        ensures
            m@ == self.message_text(),
    {
        match self {
            CtreError::CanMsgStale => "The CAN message was stale",
            CtreError::CanTransmissionError => "A can message could be not transmitted",
            CtreError::InvalidParamValue => "Caller passed an invalid param",
            CtreError::RxError => "CAN frame could not be recieved properly",
            CtreError::TxError => "A transmisson error occured",
            CtreError::CanIdError => "Specified device id is invalid or no more can sessions avaliable",
            CtreError::CanBufferFull => "CAN buffer was full and message could not be sent",
            CtreError::CanOverflow => "The CAN bus has overflowed",
            CtreError::SensorNotPresent => "Sensor is not present",
            CtreError::FirmwareTooOld => "Device firmware is too old, please update",
            CtreError::CouldNotChangePeriod => "Could not change period",
            CtreError::BufferFailure => "CAN buffer has failed",
            CtreError::FirmwareNonFRC => "Firmware was of incorect type",
            CtreError::GeneralError => "A general error has occured",
            CtreError::SigNotUpdated => "Have not received an value response for signal",
            CtreError::NotAllPIDValuesUpdated => "Not all PID values where updated (signal error)",
            CtreError::GenPortError => "General Port Error",
            CtreError::PortModuleTypeMismatch => "Port Module Type Mismatch",
            CtreError::GenModuleError => "General Module Error",
            CtreError::ModuleNotInitSetError => "Module Not Initialized (Set)",
            CtreError::ModuleNotInitGetError => "Module Not Initialized (Get)",
            CtreError::WheelRadiusTooSmall => "Wheel Radius Too Small",
            CtreError::TicksPerRevZero => "Ticks Per Revolution is Zero",
            CtreError::DistanceBetweenWheelsTooSmall => "Distance Between Wheels Too Small",
            CtreError::GainsAreNotSet => "Gains Are Not Set",
            CtreError::WrongRemoteLimitSwitchSource => "Wrong Remote Limit Switch Source",
            CtreError::DoubleVoltageCompensatingWPI => "Double Voltage Compensating WPI",
            CtreError::CANdleAnimSlotOutOfBounds => "CANdle Animation Slot Out of Bounds",
            CtreError::IncompatibleMode => "Incompatible Mode",
            CtreError::InvalidHandle => "Invalid Handle",
            CtreError::FeatureRequiresHigherFirm => "Feature Requires Higher Firmware Version",
            CtreError::MotorControllerFeatureRequiresHigherFirm => "Motor Controller Feature Requires Higher Firmware Version",
            CtreError::ConfigFactoryDefaultRequiresHigherFirm => "Config Factory Default Requires Higher Firmware Version",
            CtreError::ConfigMotionSCurveRequiresHigherFirm => "Config Motion S-Curve Requires Higher Firmware Version",
            CtreError::TalonFXFirmwarePreVBatDetect => "TalonFX Firmware Pre-VBat Detect",
            CtreError::CANdleAnimationsRequireHigherFirm => "CANdle Animations Require Higher Firmware Version",
            CtreError::LibraryCouldNotBeLoaded => "Library Could Not Be Loaded",
            CtreError::MissingRoutineInLibrary => "Missing Routine in Library",
            CtreError::ResourceNotAvailable => "Resource Not Available",
            CtreError::MusicFileNotFound => "Music File Not Found",
            CtreError::MusicFileWrongSize => "Music File Wrong Size",
            CtreError::MusicFileTooNew => "Music File Too New",
            CtreError::MusicFileInvalid => "Music File Invalid",
            CtreError::InvalidOrchestraAction => "Invalid Orchestra Action",
            CtreError::MusicFileTooOld => "Music File Too Old",
            CtreError::MusicInterrupted => "Music Interrupted",
            CtreError::MusicNotSupported => "Music Not Supported",
            CtreError::InvalidInterface => "Invalid Interface",
            CtreError::InvalidGuid => "Invalid GUID",
            CtreError::InvalidClass => "Invalid Class",
            CtreError::InvalidProtocol => "Invalid Protocol",
            CtreError::InvalidPath => "Invalid Path",
            CtreError::GeneralWinUsbError => "General WinUsb Error",
            CtreError::FailedSetup => "Failed Setup",
            CtreError::ListenFailed => "Listen Failed",
            CtreError::SendFailed => "Send Failed",
            CtreError::ReceiveFailed => "Receive Failed",
            CtreError::InvalidRespFormat => "Invalid Response Format",
            CtreError::WinUsbInitFailed => "WinUsb Init Failed",
            CtreError::WinUsbQueryFailed => "WinUsb Query Failed",
            CtreError::WinUsbGeneralError => "WinUsb General Error",
            CtreError::AccessDenied => "Access Denied",
            CtreError::FirmwareInvalidResponse => "Firmware Invalid Response",
            CtreError::PulseWidthSensorNotPresent => "Pulse Width Sensor Not Present",
            CtreError::GeneralWarning => "General Warning",
            CtreError::FeatureNotSupported => "Feature Not Supported",
            CtreError::NotImplemented => "Not Implemented",
            CtreError::FirmVersionCouldNotBeRetrieved => "Firmware Version Could Not Be Retrieved",
            CtreError::FeaturesNotAvailableYet => "Features Not Available Yet",
            CtreError::ControlModeNotValid => "Control Mode Not Valid",
            CtreError::ControlModeNotSupportedYet => "Control Mode Not Supported Yet",
            CtreError::PIDTypeNotSupportedYet => "PID Type Not Supported Yet",
            CtreError::RemoteSensorsNotSupportedYet => "Remote Sensors Not Supported Yet",
            CtreError::MotProfFirmThreshold => "Motion Profile Firmware Threshold",
            CtreError::MotProfFirmThreshold2 => "Motion Profile Firmware Threshold 2",
            CtreError::SimDeviceNotFound => "Sim Device Not Found",
            CtreError::SimPhysicsTypeNotSupported => "Sim Physics Type Not Supported",
            CtreError::SimDeviceAlreadyExists => "Sim Device Already Exists",
        }
    }
}

/// The error a status code stands for, or `None` for success and for codes that name no
/// error.
pub fn error_from_code(code: i32) -> (r: Option<CtreError>)
    ensures
        r == error_of_code(code),
{
    match code {
        1 => Some(CtreError::CanMsgStale),
        -1 => Some(CtreError::CanTransmissionError),
        -2 => Some(CtreError::InvalidParamValue),
        -3 => Some(CtreError::RxError),
        -4 => Some(CtreError::TxError),
        -5 => Some(CtreError::CanIdError),
        6 => Some(CtreError::CanBufferFull),
        -6 => Some(CtreError::CanOverflow),
        -7 => Some(CtreError::SensorNotPresent),
        -8 => Some(CtreError::FirmwareTooOld),
        -9 => Some(CtreError::CouldNotChangePeriod),
        -10 => Some(CtreError::BufferFailure),
        -11 => Some(CtreError::FirmwareNonFRC),
        -100 => Some(CtreError::GeneralError),
        -200 => Some(CtreError::SigNotUpdated),
        -201 => Some(CtreError::NotAllPIDValuesUpdated),
        -300 => Some(CtreError::GenPortError),
        -301 => Some(CtreError::PortModuleTypeMismatch),
        -400 => Some(CtreError::GenModuleError),
        -401 => Some(CtreError::ModuleNotInitSetError),
        -402 => Some(CtreError::ModuleNotInitGetError),
        -500 => Some(CtreError::WheelRadiusTooSmall),
        -501 => Some(CtreError::TicksPerRevZero),
        -502 => Some(CtreError::DistanceBetweenWheelsTooSmall),
        -503 => Some(CtreError::GainsAreNotSet),
        -504 => Some(CtreError::WrongRemoteLimitSwitchSource),
        -505 => Some(CtreError::DoubleVoltageCompensatingWPI),
        -506 => Some(CtreError::CANdleAnimSlotOutOfBounds),
        -600 => Some(CtreError::IncompatibleMode),
        -601 => Some(CtreError::InvalidHandle),
        -700 => Some(CtreError::FeatureRequiresHigherFirm),
        -701 => Some(CtreError::MotorControllerFeatureRequiresHigherFirm),
        -702 => Some(CtreError::ConfigFactoryDefaultRequiresHigherFirm),
        -703 => Some(CtreError::ConfigMotionSCurveRequiresHigherFirm),
        -704 => Some(CtreError::TalonFXFirmwarePreVBatDetect),
        -705 => Some(CtreError::CANdleAnimationsRequireHigherFirm),
        -800 => Some(CtreError::LibraryCouldNotBeLoaded),
        -801 => Some(CtreError::MissingRoutineInLibrary),
        -802 => Some(CtreError::ResourceNotAvailable),
        -900 => Some(CtreError::MusicFileNotFound),
        -901 => Some(CtreError::MusicFileWrongSize),
        -902 => Some(CtreError::MusicFileTooNew),
        -903 => Some(CtreError::MusicFileInvalid),
        -904 => Some(CtreError::InvalidOrchestraAction),
        -905 => Some(CtreError::MusicFileTooOld),
        -906 => Some(CtreError::MusicInterrupted),
        -907 => Some(CtreError::MusicNotSupported),
        -1000 => Some(CtreError::InvalidInterface),
        -1001 => Some(CtreError::InvalidGuid),
        -1002 => Some(CtreError::InvalidClass),
        -1003 => Some(CtreError::InvalidProtocol),
        -1004 => Some(CtreError::InvalidPath),
        -1005 => Some(CtreError::GeneralWinUsbError),
        -1006 => Some(CtreError::FailedSetup),
        -1007 => Some(CtreError::ListenFailed),
        -1008 => Some(CtreError::SendFailed),
        -1009 => Some(CtreError::ReceiveFailed),
        -1010 => Some(CtreError::InvalidRespFormat),
        -1011 => Some(CtreError::WinUsbInitFailed),
        -1012 => Some(CtreError::WinUsbQueryFailed),
        -1013 => Some(CtreError::WinUsbGeneralError),
        -1014 => Some(CtreError::AccessDenied),
        -1015 => Some(CtreError::FirmwareInvalidResponse),
        10 => Some(CtreError::PulseWidthSensorNotPresent),
        100 => Some(CtreError::GeneralWarning),
        101 => Some(CtreError::FeatureNotSupported),
        102 => Some(CtreError::NotImplemented),
        103 => Some(CtreError::FirmVersionCouldNotBeRetrieved),
        104 => Some(CtreError::FeaturesNotAvailableYet),
        105 => Some(CtreError::ControlModeNotValid),
        106 => Some(CtreError::ControlModeNotSupportedYet),
        107 => Some(CtreError::PIDTypeNotSupportedYet),
        108 => Some(CtreError::RemoteSensorsNotSupportedYet),
        109 => Some(CtreError::MotProfFirmThreshold),
        110 => Some(CtreError::MotProfFirmThreshold2),
        200 => Some(CtreError::SimDeviceNotFound),
        201 => Some(CtreError::SimPhysicsTypeNotSupported),
        202 => Some(CtreError::SimDeviceAlreadyExists),
        _ => None,
    }
}

/// Turns a status code into a result: 0 is success carrying `value`, any other known code is
/// its error.
pub fn to_result_with_value<T>(code: i32, value: T) -> (r: Result<T, CtreError>)
    requires
        code == 0 || error_of_code(code) is Some,
    ensures
        code == 0 ==> r == Ok::<T, CtreError>(value),
        code != 0 ==> r == Err::<T, CtreError>(error_of_code(code).unwrap()),
{
    if code == 0 {
        Ok(value)
    } else {
        match error_from_code(code) {
            Some(e) => Err(e),
            None => Err(CtreError::GeneralError),
        }
    }
}

/// Turns a status code into a result: 0 is success, any other known code is its error.
pub fn to_result(code: i32) -> (r: Result<(), CtreError>)
    requires
        code == 0 || error_of_code(code) is Some,
    ensures
        code == 0 ==> r == Ok::<(), CtreError>(()),
        code != 0 ==> r == Err::<(), CtreError>(error_of_code(code).unwrap()),
{
    to_result_with_value(code, ())
}

/// The numeric value of each CTRE error, as the CTRE library numbers it, and each of those
/// values read back as its error.
pub proof fn lemma_ctre_code_values()
    ensures
        error_code(CtreError::CanMsgStale) == 1,
        error_code(CtreError::CanTransmissionError) == -1,
        error_code(CtreError::InvalidParamValue) == -2,
        error_code(CtreError::RxError) == -3,
        error_code(CtreError::TxError) == -4,
        error_code(CtreError::CanIdError) == -5,
        error_code(CtreError::CanBufferFull) == 6,
        error_code(CtreError::CanOverflow) == -6,
        error_code(CtreError::SensorNotPresent) == -7,
        error_code(CtreError::FirmwareTooOld) == -8,
        error_code(CtreError::CouldNotChangePeriod) == -9,
        error_code(CtreError::BufferFailure) == -10,
        error_code(CtreError::FirmwareNonFRC) == -11,
        error_code(CtreError::GeneralError) == -100,
        error_code(CtreError::SigNotUpdated) == -200,
        error_code(CtreError::NotAllPIDValuesUpdated) == -201,
        error_code(CtreError::GenPortError) == -300,
        error_code(CtreError::PortModuleTypeMismatch) == -301,
        error_code(CtreError::GenModuleError) == -400,
        error_code(CtreError::ModuleNotInitSetError) == -401,
        error_code(CtreError::ModuleNotInitGetError) == -402,
        error_code(CtreError::WheelRadiusTooSmall) == -500,
        error_code(CtreError::TicksPerRevZero) == -501,
        error_code(CtreError::DistanceBetweenWheelsTooSmall) == -502,
        error_code(CtreError::GainsAreNotSet) == -503,
        error_code(CtreError::WrongRemoteLimitSwitchSource) == -504,
        error_code(CtreError::DoubleVoltageCompensatingWPI) == -505,
        error_code(CtreError::CANdleAnimSlotOutOfBounds) == -506,
        error_code(CtreError::IncompatibleMode) == -600,
        error_code(CtreError::InvalidHandle) == -601,
        error_code(CtreError::FeatureRequiresHigherFirm) == -700,
        error_code(CtreError::MotorControllerFeatureRequiresHigherFirm) == -701,
        error_code(CtreError::ConfigFactoryDefaultRequiresHigherFirm) == -702,
        error_code(CtreError::ConfigMotionSCurveRequiresHigherFirm) == -703,
        error_code(CtreError::TalonFXFirmwarePreVBatDetect) == -704,
        error_code(CtreError::CANdleAnimationsRequireHigherFirm) == -705,
        error_code(CtreError::LibraryCouldNotBeLoaded) == -800,
        error_code(CtreError::MissingRoutineInLibrary) == -801,
        error_code(CtreError::ResourceNotAvailable) == -802,
        error_code(CtreError::MusicFileNotFound) == -900,
        error_code(CtreError::MusicFileWrongSize) == -901,
        error_code(CtreError::MusicFileTooNew) == -902,
        error_code(CtreError::MusicFileInvalid) == -903,
        error_code(CtreError::InvalidOrchestraAction) == -904,
        error_code(CtreError::MusicFileTooOld) == -905,
        error_code(CtreError::MusicInterrupted) == -906,
        error_code(CtreError::MusicNotSupported) == -907,
        error_code(CtreError::InvalidInterface) == -1000,
        error_code(CtreError::InvalidGuid) == -1001,
        error_code(CtreError::InvalidClass) == -1002,
        error_code(CtreError::InvalidProtocol) == -1003,
        error_code(CtreError::InvalidPath) == -1004,
        error_code(CtreError::GeneralWinUsbError) == -1005,
        error_code(CtreError::FailedSetup) == -1006,
        error_code(CtreError::ListenFailed) == -1007,
        error_code(CtreError::SendFailed) == -1008,
        error_code(CtreError::ReceiveFailed) == -1009,
        error_code(CtreError::InvalidRespFormat) == -1010,
        error_code(CtreError::WinUsbInitFailed) == -1011,
        error_code(CtreError::WinUsbQueryFailed) == -1012,
        error_code(CtreError::WinUsbGeneralError) == -1013,
        error_code(CtreError::AccessDenied) == -1014,
        error_code(CtreError::FirmwareInvalidResponse) == -1015,
        error_code(CtreError::PulseWidthSensorNotPresent) == 10,
        error_code(CtreError::GeneralWarning) == 100,
        error_code(CtreError::FeatureNotSupported) == 101,
        error_code(CtreError::NotImplemented) == 102,
        error_code(CtreError::FirmVersionCouldNotBeRetrieved) == 103,
        error_code(CtreError::FeaturesNotAvailableYet) == 104,
        error_code(CtreError::ControlModeNotValid) == 105,
        error_code(CtreError::ControlModeNotSupportedYet) == 106,
        error_code(CtreError::PIDTypeNotSupportedYet) == 107,
        error_code(CtreError::RemoteSensorsNotSupportedYet) == 108,
        error_code(CtreError::MotProfFirmThreshold) == 109,
        error_code(CtreError::MotProfFirmThreshold2) == 110,
        error_code(CtreError::SimDeviceNotFound) == 200,
        error_code(CtreError::SimPhysicsTypeNotSupported) == 201,
        error_code(CtreError::SimDeviceAlreadyExists) == 202,
        error_of_code(1i32) == Some(CtreError::CanMsgStale),
        error_of_code(-1i32) == Some(CtreError::CanTransmissionError),
        error_of_code(-2i32) == Some(CtreError::InvalidParamValue),
        error_of_code(-3i32) == Some(CtreError::RxError),
        error_of_code(-4i32) == Some(CtreError::TxError),
        error_of_code(-5i32) == Some(CtreError::CanIdError),
        error_of_code(6i32) == Some(CtreError::CanBufferFull),
        error_of_code(-6i32) == Some(CtreError::CanOverflow),
        error_of_code(-7i32) == Some(CtreError::SensorNotPresent),
        error_of_code(-8i32) == Some(CtreError::FirmwareTooOld),
        error_of_code(-9i32) == Some(CtreError::CouldNotChangePeriod),
        error_of_code(-10i32) == Some(CtreError::BufferFailure),
        error_of_code(-11i32) == Some(CtreError::FirmwareNonFRC),
        error_of_code(-100i32) == Some(CtreError::GeneralError),
        error_of_code(-200i32) == Some(CtreError::SigNotUpdated),
        error_of_code(-201i32) == Some(CtreError::NotAllPIDValuesUpdated),
        error_of_code(-300i32) == Some(CtreError::GenPortError),
        error_of_code(-301i32) == Some(CtreError::PortModuleTypeMismatch),
        error_of_code(-400i32) == Some(CtreError::GenModuleError),
        error_of_code(-401i32) == Some(CtreError::ModuleNotInitSetError),
        error_of_code(-402i32) == Some(CtreError::ModuleNotInitGetError),
        error_of_code(-500i32) == Some(CtreError::WheelRadiusTooSmall),
        error_of_code(-501i32) == Some(CtreError::TicksPerRevZero),
        error_of_code(-502i32) == Some(CtreError::DistanceBetweenWheelsTooSmall),
        error_of_code(-503i32) == Some(CtreError::GainsAreNotSet),
        error_of_code(-504i32) == Some(CtreError::WrongRemoteLimitSwitchSource),
        error_of_code(-505i32) == Some(CtreError::DoubleVoltageCompensatingWPI),
        error_of_code(-506i32) == Some(CtreError::CANdleAnimSlotOutOfBounds),
        error_of_code(-600i32) == Some(CtreError::IncompatibleMode),
        error_of_code(-601i32) == Some(CtreError::InvalidHandle),
        error_of_code(-700i32) == Some(CtreError::FeatureRequiresHigherFirm),
        error_of_code(-701i32) == Some(CtreError::MotorControllerFeatureRequiresHigherFirm),
        error_of_code(-702i32) == Some(CtreError::ConfigFactoryDefaultRequiresHigherFirm),
        error_of_code(-703i32) == Some(CtreError::ConfigMotionSCurveRequiresHigherFirm),
        error_of_code(-704i32) == Some(CtreError::TalonFXFirmwarePreVBatDetect),
        error_of_code(-705i32) == Some(CtreError::CANdleAnimationsRequireHigherFirm),
        error_of_code(-800i32) == Some(CtreError::LibraryCouldNotBeLoaded),
        error_of_code(-801i32) == Some(CtreError::MissingRoutineInLibrary),
        error_of_code(-802i32) == Some(CtreError::ResourceNotAvailable),
        error_of_code(-900i32) == Some(CtreError::MusicFileNotFound),
        error_of_code(-901i32) == Some(CtreError::MusicFileWrongSize),
        error_of_code(-902i32) == Some(CtreError::MusicFileTooNew),
        error_of_code(-903i32) == Some(CtreError::MusicFileInvalid),
        error_of_code(-904i32) == Some(CtreError::InvalidOrchestraAction),
        error_of_code(-905i32) == Some(CtreError::MusicFileTooOld),
        error_of_code(-906i32) == Some(CtreError::MusicInterrupted),
        error_of_code(-907i32) == Some(CtreError::MusicNotSupported),
        error_of_code(-1000i32) == Some(CtreError::InvalidInterface),
        error_of_code(-1001i32) == Some(CtreError::InvalidGuid),
        error_of_code(-1002i32) == Some(CtreError::InvalidClass),
        error_of_code(-1003i32) == Some(CtreError::InvalidProtocol),
        error_of_code(-1004i32) == Some(CtreError::InvalidPath),
        error_of_code(-1005i32) == Some(CtreError::GeneralWinUsbError),
        error_of_code(-1006i32) == Some(CtreError::FailedSetup),
        error_of_code(-1007i32) == Some(CtreError::ListenFailed),
        error_of_code(-1008i32) == Some(CtreError::SendFailed),
        error_of_code(-1009i32) == Some(CtreError::ReceiveFailed),
        error_of_code(-1010i32) == Some(CtreError::InvalidRespFormat),
        error_of_code(-1011i32) == Some(CtreError::WinUsbInitFailed),
        error_of_code(-1012i32) == Some(CtreError::WinUsbQueryFailed),
        error_of_code(-1013i32) == Some(CtreError::WinUsbGeneralError),
        error_of_code(-1014i32) == Some(CtreError::AccessDenied),
        error_of_code(-1015i32) == Some(CtreError::FirmwareInvalidResponse),
        error_of_code(10i32) == Some(CtreError::PulseWidthSensorNotPresent),
        error_of_code(100i32) == Some(CtreError::GeneralWarning),
        error_of_code(101i32) == Some(CtreError::FeatureNotSupported),
        error_of_code(102i32) == Some(CtreError::NotImplemented),
        error_of_code(103i32) == Some(CtreError::FirmVersionCouldNotBeRetrieved),
        error_of_code(104i32) == Some(CtreError::FeaturesNotAvailableYet),
        error_of_code(105i32) == Some(CtreError::ControlModeNotValid),
        error_of_code(106i32) == Some(CtreError::ControlModeNotSupportedYet),
        error_of_code(107i32) == Some(CtreError::PIDTypeNotSupportedYet),
        error_of_code(108i32) == Some(CtreError::RemoteSensorsNotSupportedYet),
        error_of_code(109i32) == Some(CtreError::MotProfFirmThreshold),
        error_of_code(110i32) == Some(CtreError::MotProfFirmThreshold2),
        error_of_code(200i32) == Some(CtreError::SimDeviceNotFound),
        error_of_code(201i32) == Some(CtreError::SimPhysicsTypeNotSupported),
        error_of_code(202i32) == Some(CtreError::SimDeviceAlreadyExists),
{
}

/// Every error has a nonzero code, and that code reads back as the same error.
pub proof fn lemma_error_code_roundtrip(e: CtreError)
    ensures
        error_code(e) != 0,
        error_of_code(error_code(e)) == Some(e),
{
}

/// Codes that stand for errors name exactly one: a code read back from an error is that code.
pub proof fn lemma_code_error_roundtrip(code: i32)
    requires
        error_of_code(code) is Some,
    ensures
        error_code(error_of_code(code).unwrap()) == code,
{
}

/// Control modes of a Victor SPX motor controller.
#[derive(Clone, Copy, Debug, PartialEq, Eq)]
pub enum VictorSPXControlMode {
    PercentOutput,
    Position,
    Velocity,
    Follower,
    MotionProfile,
    MotionMagic,
    MotionProfileArc,
    Disabled,
}

impl VictorSPXControlMode {
    /// The number the CTRE library uses for this mode.
    pub fn to_i32(&self) -> (r: i32)
        ensures
            r == match *self {
                VictorSPXControlMode::PercentOutput => 0i32,
                VictorSPXControlMode::Position => 1i32,
                VictorSPXControlMode::Velocity => 2i32,
                VictorSPXControlMode::Follower => 5i32,
                VictorSPXControlMode::MotionProfile => 6i32,
                VictorSPXControlMode::MotionMagic => 7i32,
                VictorSPXControlMode::MotionProfileArc => 10i32,
                VictorSPXControlMode::Disabled => 15i32,
            },
    {
        match self {
            VictorSPXControlMode::PercentOutput => 0,
            VictorSPXControlMode::Position => 1,
            VictorSPXControlMode::Velocity => 2,
            VictorSPXControlMode::Follower => 5,
            VictorSPXControlMode::MotionProfile => 6,
            VictorSPXControlMode::MotionMagic => 7,
            VictorSPXControlMode::MotionProfileArc => 10,
            VictorSPXControlMode::Disabled => 15,
        }
    }
}

/// How the second demand of a set call is interpreted.
#[derive(Clone, Copy, Debug, PartialEq, Eq)]
pub enum DemandType {
    Neutral,
    AuxPID,
    ArbitraryFeedForward,
}

impl DemandType {
    /// The number the CTRE library uses for this demand type.
    pub fn to_i32(&self) -> (r: i32)
        ensures
            r == match *self {
                DemandType::Neutral => 0i32,
                DemandType::AuxPID => 1i32,
                DemandType::ArbitraryFeedForward => 2i32,
            },
    {
        match self {
            DemandType::Neutral => 0,
            DemandType::AuxPID => 1,
            DemandType::ArbitraryFeedForward => 2,
        }
    }
}

/// What a motor does when it is not driven.
#[derive(Clone, Copy, Debug, PartialEq, Eq)]
pub enum IdleMode {
    EEPROMSetting,
    Coast,
    Brake,
}

impl IdleMode {
    /// The number the CTRE library uses for this idle mode.
    pub fn to_i32(&self) -> (r: i32)
        ensures
            r == match *self {
                IdleMode::EEPROMSetting => 0i32,
                IdleMode::Coast => 1i32,
                IdleMode::Brake => 2i32,
            },
    {
        match self {
            IdleMode::EEPROMSetting => 0,
            IdleMode::Coast => 1,
            IdleMode::Brake => 2,
        }
    }
}

} // verus!
