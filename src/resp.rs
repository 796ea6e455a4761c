//! The responses of an SD card in SPI mode.
//!
//! Every response starts with an R1 status byte, whatever its format. The
//! R3 and R7 formats add four bytes, which the card does not send when the
//! status byte already reports an illegal command or a CRC error (see
//! [`R1Response::response_truncated`]).
use vstd::prelude::*;

use crate::common::{CardCapacity, VOLTAGE_2_7_TO_3_6};

verus! {

/// An R1 response: the status byte that starts every response.
///
/// Bit 0 is the idle flag, bit 1 erase reset, bits 2 to 6 the error flags
/// (illegal command, CRC error, erase sequence error, address error and
/// parameter error); bit 7 is always clear in a valid status.
#[derive(Debug, Clone, Copy, PartialEq, Eq, Structural)]
pub struct R1Response(pub u8);

/// The last four bytes of an R7 response (the interface condition echo),
/// big-endian in a word, with the R1 status byte that came first.
#[derive(Debug, Clone, Copy, PartialEq, Eq, Structural)]
pub struct R7Response(pub u32, pub R1Response);

/// The last four bytes of an R3 response (the OCR register), big-endian in a
/// word, with the R1 status byte that came first.
#[derive(Debug, Clone, Copy, PartialEq, Eq, Structural)]
pub struct R3Response(pub u32, pub R1Response);

/// The error flags of a status byte, and the checks on an R7 echo.
#[derive(Debug, Clone, Copy, PartialEq, Eq, Structural)]
pub enum ResponseError {
    /// The card detected an illegal command.
    IllegalCommand,
    /// The card detected a CRC check failure.
    ComCrcError,
    /// The card detected an erase sequence error.
    EraseSequenceError,
    /// The card detected an address error.
    AddressError,
    /// The card detected a parameter error.
    ParameterError,
    /// The card answered with an unexpected voltage.
    UnexpectVoltage,
    /// The card answered with an unexpected check pattern.
    CheckPatternMismatch,
}

/// Idle flag of a status byte.
pub const IDLE: u8 = 0b0000_0001;

/// Erase reset flag of a status byte.
pub const ERASE_RESET: u8 = 0b0000_0010;

/// Illegal command flag of a status byte.
pub const ILLEGAL_COMMAND: u8 = 0b0000_0100;

/// Command CRC error flag of a status byte.
pub const COM_CRC_ERROR: u8 = 0b0000_1000;

/// Erase sequence error flag of a status byte.
pub const ERASE_SEQUENCE_ERROR: u8 = 0b0001_0000;

/// Address error flag of a status byte.
pub const ADDRESS_ERROR: u8 = 0b0010_0000;

/// Parameter error flag of a status byte.
pub const PARAMETER_ERROR: u8 = 0b0100_0000;

/// All five error flags: every flag but idle and erase reset.
pub const ALL_ERROR: u8 = 0b0111_1100;

/// The error that a status byte reports: the first flag set among illegal
/// command, CRC error, erase sequence error, address error and parameter
/// error, in that order.
pub open spec fn status_error(status: u8) -> Option<ResponseError> {
    if status & ILLEGAL_COMMAND != 0 {
        Some(ResponseError::IllegalCommand)
    } else if status & COM_CRC_ERROR != 0 {
        Some(ResponseError::ComCrcError)
    } else if status & ERASE_SEQUENCE_ERROR != 0 {
        Some(ResponseError::EraseSequenceError)
    } else if status & ADDRESS_ERROR != 0 {
        Some(ResponseError::AddressError)
    } else if status & PARAMETER_ERROR != 0 {
        Some(ResponseError::ParameterError)
    } else {
        None
    }
}

/// The error that each single error flag stands for.
pub open spec fn flag_error(flag: u8) -> ResponseError {
    if flag == ILLEGAL_COMMAND {
        ResponseError::IllegalCommand
    } else if flag == COM_CRC_ERROR {
        ResponseError::ComCrcError
    } else if flag == ERASE_SEQUENCE_ERROR {
        ResponseError::EraseSequenceError
    } else if flag == ADDRESS_ERROR {
        ResponseError::AddressError
    } else {
        ResponseError::ParameterError
    }
}

/// Whether `flag` is one of the five error flags.
pub open spec fn is_error_flag(flag: u8) -> bool {
    flag == ILLEGAL_COMMAND || flag == COM_CRC_ERROR || flag == ERASE_SEQUENCE_ERROR || flag
        == ADDRESS_ERROR || flag == PARAMETER_ERROR
}

/// A status byte with no error flag set reports no error; one with exactly
/// one error flag set (whatever its idle and erase reset flags) reports the
/// error of that flag.
pub proof fn lemma_status_error_flags(status: u8, flag: u8)
    ensures
        status & ALL_ERROR == 0 <==> status_error(status) is None,
        is_error_flag(flag) && status & ALL_ERROR == flag ==> status_error(status) == Some(
            flag_error(flag),
        ),
{
    assert(status & ALL_ERROR == 0 <==> (status & 4u8 == 0 && status & 8u8 == 0 && status & 16u8
        == 0 && status & 32u8 == 0 && status & 64u8 == 0)) by (bit_vector);
    if is_error_flag(flag) && status & ALL_ERROR == flag {
        assert(status & 0x7cu8 == 4u8 ==> status & 4u8 != 0) by (bit_vector);
        assert(status & 0x7cu8 == 8u8 ==> status & 4u8 == 0 && status & 8u8 != 0) by (bit_vector);
        assert(status & 0x7cu8 == 16u8 ==> status & 4u8 == 0 && status & 8u8 == 0 && status & 16u8
            != 0) by (bit_vector);
        assert(status & 0x7cu8 == 32u8 ==> status & 4u8 == 0 && status & 8u8 == 0 && status & 16u8
            == 0 && status & 32u8 != 0) by (bit_vector);
        assert(status & 0x7cu8 == 64u8 ==> status & 4u8 == 0 && status & 8u8 == 0 && status & 16u8
            == 0 && status & 32u8 == 0 && status & 64u8 != 0) by (bit_vector);
    }
}

impl R1Response {
    /// Wraps a status byte.
    pub fn new(value: u8) -> (r: Self)
        ensures
            r.0 == value,
    {
        Self(value)
    }

    /// Whether the card left out the rest of the response: it does so when
    /// it reports an illegal command or a CRC error.
    pub open spec fn is_truncated(self) -> bool {
        self.0 & ILLEGAL_COMMAND != 0 || self.0 & COM_CRC_ERROR != 0
    }

    /// Whether the idle flag is set.
    pub open spec fn is_idle(self) -> bool {
        self.0 & IDLE != 0
    }

    /// Checks the five error flags in order and fails with the first one
    /// set; succeeds with the status itself when none is.
    pub fn check_error(self) -> (r: Result<R1Response, ResponseError>)
        ensures
            r == (match status_error(self.0) {
                Some(e) => Err(e),
                None => Ok(self),
            }),
            r is Ok <==> self.0 & ALL_ERROR == 0,
    {
        proof {
            lemma_status_error_flags(self.0, 0);
        }
        if !self.is_clear(ILLEGAL_COMMAND) {
            return Err(ResponseError::IllegalCommand);
        }
        if !self.is_clear(COM_CRC_ERROR) {
            return Err(ResponseError::ComCrcError);
        }
        if !self.is_clear(ERASE_SEQUENCE_ERROR) {
            return Err(ResponseError::EraseSequenceError);
        }
        if !self.is_clear(ADDRESS_ERROR) {
            return Err(ResponseError::AddressError);
        }
        if !self.is_clear(PARAMETER_ERROR) {
            return Err(ResponseError::ParameterError);
        }
        Ok(self)
    }

    /// Whether the rest of the response is left out: true exactly when the
    /// illegal command or the CRC error flag is set.
    pub fn response_truncated(self) -> (r: bool)
        ensures
            r == self.is_truncated(),
            r <==> (self.0 & 0b0000_1100u8 != 0),
    {
        let r = self.is_set(ILLEGAL_COMMAND) || self.is_set(COM_CRC_ERROR);
        let s = self.0;
        assert((s & 4u8 != 0 || s & 8u8 != 0) <==> s & 12u8 != 0) by (bit_vector);
        r
    }

    /// Whether the idle flag is set.
    pub fn idle(self) -> (r: bool)
        ensures
            r == self.is_idle(),
    {
        self.is_set(IDLE)
    }

    fn is_clear(self, flags: u8) -> (r: bool)
        ensures
            r == (self.0 & flags == 0),
    {
        self.0 & flags == 0
    }

    fn is_set(self, flags: u8) -> (r: bool)
        ensures
            r == (self.0 & flags != 0),
    {
        self.0 & flags != 0
    }
}

/// The big-endian word of four bytes.
pub open spec fn be_word(b0: u8, b1: u8, b2: u8, b3: u8) -> u32 {
    ((b0 as u32) << 24u32) | ((b1 as u32) << 16u32) | ((b2 as u32) << 8u32) | (b3 as u32)
}

/// Packs four bytes big-endian into a word.
fn pack_be(b0: u8, b1: u8, b2: u8, b3: u8) -> (r: u32)
    ensures
        r == be_word(b0, b1, b2, b3),
        r >> 24u32 == b0 as u32,
        (r >> 16u32) & 0xffu32 == b1 as u32,
        (r >> 8u32) & 0xffu32 == b2 as u32,
        r & 0xffu32 == b3 as u32,
{
    let r = ((b0 as u32) << 24u32) | ((b1 as u32) << 16u32) | ((b2 as u32) << 8u32) | (b3 as u32);
    assert(r >> 24u32 == b0 as u32 && (r >> 16u32) & 0xffu32 == b1 as u32 && (r >> 8u32) & 0xffu32
        == b2 as u32 && r & 0xffu32 == b3 as u32) by (bit_vector)
        requires
            r == ((b0 as u32) << 24u32) | ((b1 as u32) << 16u32) | ((b2 as u32) << 8u32) | (
            b3 as u32),
    ;
    r
}

/// The card capacity status bit (CCS) of the OCR register.
pub const CCS: u32 = 0b0100_0000_0000_0000_0000_0000_0000_0000;

/// The capacity class an OCR word reports through its CCS bit.
pub open spec fn ocr_capacity(ocr: u32) -> CardCapacity {
    if ocr & CCS == 0 {
        CardCapacity::Standard
    } else {
        CardCapacity::HighOrExtended
    }
}

impl R3Response {
    /// Builds the response from its four last bytes and its status byte.
    pub fn new(byte2: u8, byte3: u8, byte4: u8, byte5: u8, r1: R1Response) -> (r: Self)
        ensures
            r.0 == be_word(byte2, byte3, byte4, byte5),
            r.1 == r1,
    {
        R3Response(pack_be(byte2, byte3, byte4, byte5), r1)
    }

    /// The capacity class: high or extended when the CCS bit is set,
    /// standard when it is clear.
    pub fn card_capacity(&self) -> (r: CardCapacity)
        ensures
            r == ocr_capacity(self.0),
    {
        if self.0 & CCS == 0 {
            CardCapacity::Standard
        } else {
            CardCapacity::HighOrExtended
        }
    }
}

/// The capacity class of an OCR echo is set by bit 6 of its first byte
/// alone: set gives high or extended capacity, clear gives standard
/// capacity, whatever the other bits hold.
pub proof fn lemma_capacity_from_first_byte(b0: u8, b1: u8, b2: u8, b3: u8)
    ensures
        ocr_capacity(be_word(b0, b1, b2, b3)) == (if b0 & 0b0100_0000u8 != 0 {
            CardCapacity::HighOrExtended
        } else {
            CardCapacity::Standard
        }),
{
    assert((((b0 as u32) << 24u32) | ((b1 as u32) << 16u32) | ((b2 as u32) << 8u32) | (b3 as u32))
        & 0x4000_0000u32 == 0 <==> b0 & 0x40u8 == 0) by (bit_vector);
}

/// Where an R7 echo word holds the voltage accepted nibble.
pub const VOLTAGE_ACCEPTED_MASK: u32 = 0b0000_1111_0000_0000;

/// Where an R7 echo word holds the check pattern.
pub const CHECK_PATTERN_MASK: u32 = 0x0000_00FF;

/// The voltage accepted nibble of an R7 echo word (bits 11 to 8).
pub open spec fn echo_voltage(word: u32) -> u32 {
    (word & VOLTAGE_ACCEPTED_MASK) >> 8u32
}

/// The check pattern of an R7 echo word (bits 7 to 0).
pub open spec fn echo_pattern(word: u32) -> u32 {
    word & CHECK_PATTERN_MASK
}

/// The outcome of checking an R7 echo word against the check pattern sent:
/// the voltage is checked first, then the pattern.
pub open spec fn echo_check(word: u32, check_pattern: u8) -> Result<(), ResponseError> {
    if echo_voltage(word) != VOLTAGE_2_7_TO_3_6 as u32 {
        Err(ResponseError::UnexpectVoltage)
    } else if echo_pattern(word) != check_pattern as u32 {
        Err(ResponseError::CheckPatternMismatch)
    } else {
        Ok(())
    }
}

impl R7Response {
    /// Builds the response from its four last bytes and its status byte.
    pub fn new(byte2: u8, byte3: u8, byte4: u8, byte5: u8, r1: R1Response) -> (r: Self)
        ensures
            r.0 == be_word(byte2, byte3, byte4, byte5),
            r.1 == r1,
            echo_voltage(r.0) == (byte4 & 0x0fu8) as u32,
            echo_pattern(r.0) == byte5 as u32,
    {
        let w = pack_be(byte2, byte3, byte4, byte5);
        assert(echo_voltage(w) == (byte4 & 0x0fu8) as u32) by (bit_vector)
            requires
                w == ((byte2 as u32) << 24u32) | ((byte3 as u32) << 16u32) | ((byte4 as u32)
                    << 8u32) | (byte5 as u32),
        ;
        R7Response(w, r1)
    }

    /// Checks that the card echoed the supplied voltage, then that it echoed
    /// `check_pattern`.
    pub fn check(&self, check_pattern: u8) -> (r: Result<(), ResponseError>)
        ensures
            r == echo_check(self.0, check_pattern),
    {
        if (self.0 & VOLTAGE_ACCEPTED_MASK) >> 8u32 != VOLTAGE_2_7_TO_3_6 as u32 {
            return Err(ResponseError::UnexpectVoltage);
        }
        if self.0 & CHECK_PATTERN_MASK != check_pattern as u32 {
            return Err(ResponseError::CheckPatternMismatch);
        }
        Ok(())
    }
}

/// A response format: the status byte, followed by a fixed number of extra
/// bytes.
pub trait Response: Sized {
    /// How many bytes follow the status byte in this format.
    spec fn extra_len() -> nat;

    /// The response made of status `r1` and the extra bytes, big-endian in
    /// `extra`.
    spec fn from_parts(r1: R1Response, extra: u32) -> Self;

    /// The status byte of the response.
    spec fn status(&self) -> R1Response;

    /// How many bytes follow the status byte in this format.
    fn extra_byte_count() -> (n: usize)
        ensures
            n == Self::extra_len(),
            n <= 4,
    ;

    /// Builds the response from the status byte and the extra bytes,
    /// big-endian in `extra`.
    fn create(r1: R1Response, extra: u32) -> (r: Self)
        ensures
            r == Self::from_parts(r1, extra),
            r.status() == r1,
    ;

    /// The status byte of the response.
    fn r1(&self) -> (r: &R1Response)
        ensures
            *r == self.status(),
    ;
}

impl Response for R1Response {
    open spec fn extra_len() -> nat {
        0
    }

    open spec fn from_parts(r1: R1Response, extra: u32) -> Self {
        r1
    }

    open spec fn status(&self) -> R1Response {
        *self
    }

    fn extra_byte_count() -> (n: usize) {
        0
    }

    fn create(r1: R1Response, extra: u32) -> (r: Self) {
        r1
    }

    fn r1(&self) -> (r: &R1Response) {
        self
    }
}

impl Response for R3Response {
    open spec fn extra_len() -> nat {
        4
    }

    open spec fn from_parts(r1: R1Response, extra: u32) -> Self {
        R3Response(extra, r1)
    }

    open spec fn status(&self) -> R1Response {
        self.1
    }

    fn extra_byte_count() -> (n: usize) {
        4
    }

    fn create(r1: R1Response, extra: u32) -> (r: Self) {
        R3Response(extra, r1)
    }

    fn r1(&self) -> (r: &R1Response) {
        &self.1
    }
}

impl Response for R7Response {
    open spec fn extra_len() -> nat {
        4
    }

    open spec fn from_parts(r1: R1Response, extra: u32) -> Self {
        R7Response(extra, r1)
    }

    open spec fn status(&self) -> R1Response {
        self.1
    }

    fn extra_byte_count() -> (n: usize) {
        4
    }

    fn create(r1: R1Response, extra: u32) -> (r: Self) {
        R7Response(extra, r1)
    }

    fn r1(&self) -> (r: &R1Response) {
        &self.1
    }
}

} // verus!
