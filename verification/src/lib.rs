//! Verified core of a robot-control framework: the navX-MXP wire protocol, register decoding,
//! CTRE error codes, NetworkTables property handling, HID trigger logic, timers and command
//! combinators.
use vstd::prelude::*;

pub mod client;
pub mod command;
pub mod ctre;
pub mod ds;
pub mod error;
pub mod frames;
pub mod hal;
pub mod hid;
pub mod navx;
pub mod nt;
pub mod protocol;
pub mod reactor;
pub mod runtime;
pub mod scheduler;
pub mod subsystem;
pub mod time;
pub mod topics;
pub mod triggers;

verus! {

} // verus!
