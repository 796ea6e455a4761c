//! A driver core that brings an SD card into SPI mode.
//!
//! The library holds the command frame codec, the decoding of the card's
//! responses, and the initialization handshake as explicit state machines.
//! The machines never touch hardware: each one names the bus action it wants
//! performed next, and the caller reports back what happened.

pub mod cmds;
pub mod common;
pub mod initialization;
pub mod resp;
pub mod transactions;

pub use common::{CardCapacity, IF_COND_CHECK_PATTERN, VOLTAGE_2_7_TO_3_6};
