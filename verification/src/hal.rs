//! roboRIO peripherals: SPI ports and digital pins.
use vstd::prelude::*;

verus! {

/// HAL SPI port identifiers.
pub const HAL_SPI_ONBOARD_CS0: i32 = 0;
pub const HAL_SPI_ONBOARD_CS1: i32 = 1;
pub const HAL_SPI_ONBOARD_CS2: i32 = 2;
pub const HAL_SPI_ONBOARD_CS3: i32 = 3;
pub const HAL_SPI_MXP: i32 = 4;

/// An SPI port: the MXP expansion port or one of the four onboard chip selects.
#[derive(Clone, Copy, Debug, PartialEq, Eq)]
pub enum Port {
    MXP,
    Onboard(u8),
}

impl Port {
    /// The HAL identifier of this port. Onboard chip selects go up to 3.
    pub fn to_hal(&self) -> (r: i32)
        requires
            self matches Port::Onboard(n) ==> n <= 3,
        ensures
            r == match *self {
                Port::MXP => HAL_SPI_MXP,
                Port::Onboard(n) => n as i32,
            },
    {
        match self {
            Port::MXP => HAL_SPI_MXP,
            Port::Onboard(n) => match *n {
                0 => HAL_SPI_ONBOARD_CS0,
                1 => HAL_SPI_ONBOARD_CS1,
                2 => HAL_SPI_ONBOARD_CS2,
                _ => HAL_SPI_ONBOARD_CS3,
            },
        }
    }
}

/// A failed SPI transfer.
#[derive(Debug, Clone, Copy, PartialEq, Eq)]
pub struct SPIError;

/// Whether a transfer that moved `count` bytes of a `len`-byte request succeeded: the HAL
/// reports failure as -1, and a short transfer fails too.
pub fn transfer_ok(count: i32, len: usize) -> (r: Result<(), SPIError>)
    ensures
        r is Ok <==> (count != -1 && count == len as i32),
{
    if count == -1 || count != len as i32 {
        Err(SPIError)
    } else {
        Ok(())
    }
}

} // verus!
