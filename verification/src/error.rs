//! Errors of the robot runtime.
use vstd::prelude::*;

verus! {

/// A status code reported by the hardware abstraction layer.
#[derive(Debug, Clone, Copy, PartialEq, Eq)]
pub struct HalError(pub i32);

impl HalError {
    /// Wraps a raw HAL status code.
    pub fn from_raw(raw: i32) -> (e: Self)
        ensures
            e.0 == raw,
    {
        HalError(raw)
    }
}

/// Errors of the robot runtime.
#[derive(Debug, Clone, Copy, PartialEq, Eq)]
pub enum RuntimeError {
    /// The HAL encountered an error.
    HalError(HalError),
    /// The notifier was stopped.
    NotifierStopped,
    /// The button index was out of range.
    ButtonIndexOutOfRange(u32),
    /// The joystick index was out of range.
    JoystickIndexOutOfRange(u32),
    /// The axis index was out of range.
    AxisIndexOutOfRange(u32),
}

impl From<HalError> for RuntimeError {
    fn from(value: HalError) -> (r: Self) {
        RuntimeError::HalError(value)
    }
}

impl vstd::std_specs::convert::FromSpecImpl<HalError> for RuntimeError {
    open spec fn obeys_from_spec() -> bool {
        true
    }

    open spec fn from_spec(value: HalError) -> Self {
        RuntimeError::HalError(value)
    }
}

/// The result of a HAL call that reported `status`: success with `value` when the status is 0,
/// the status as a `HalError` otherwise.
pub fn status_to_result<T>(status: i32, value: T) -> (r: Result<T, HalError>)
    ensures
        status == 0 ==> r == Ok::<T, HalError>(value),
        status != 0 ==> r == Err::<T, HalError>(HalError(status)),
{
    if status == 0 {
        Ok(value)
    } else {
        Err(HalError(status))
    }
}

} // verus!
