//! Values shared by the command encoder and the response decoder.
use vstd::prelude::*;

verus! {

/// Voltage supplied or accepted nibble (2.7 V to 3.6 V).
///
/// This is the voltage supplied value of a SendIfCond command and the
/// voltage accepted value expected back in its R7 response.
pub const VOLTAGE_2_7_TO_3_6: u8 = 0b0001;

/// The check pattern sent with a SendIfCond command and expected to be
/// echoed back in the R7 response.
pub const IF_COND_CHECK_PATTERN: u8 = 0b0101_0101;

/// The card capacity classification.
///
/// Ultra capacity cards do not work in SPI mode, so they have no entry.
#[derive(Debug, Clone, Copy, PartialEq, Eq, Structural)]
pub enum CardCapacity {
    /// SDSC card
    Standard,
    /// SDHC or SDXC card
    HighOrExtended,
}

} // verus!
