//! SD card commands and application commands, and their 6-byte frames.
use vstd::prelude::*;

use crate::common::VOLTAGE_2_7_TO_3_6;

verus! {

/// A start bit (0) followed by the transmission-from-host bit (1).
pub const CMD_START: u8 = 0b0100_0000;

/// The end bit (1) that closes every command frame.
pub const CMD_END: u8 = 0b0000_0001;

/// The length of an encoded command frame.
pub const FRAME_LEN: usize = 6;

/// The CRC-7 (MMC variant) of `bytes`, as the `crc` crate computes it.
pub uninterp spec fn crc7_mmc(bytes: Seq<u8>) -> u8;

/// Relies on `crc::Crc::<u8>::checksum` with the `CRC_7_MMC` algorithm: the
/// 7-bit checksum of the bytes, right-aligned in a `u8` (that algorithm is not
/// output-reflected, so the checksum is shifted down to its 7 bits).
#[verifier::external_body]
fn crc7(bytes: &[u8]) -> (r: u8)
    ensures
        r == crc7_mmc(bytes@),
        r < 128,
{
    crc::Crc::<u8>::new(&crc::CRC_7_MMC).checksum(bytes)
}

/// The first five bytes of a frame: the start byte, then the argument
/// big-endian.
pub open spec fn frame_head(start: u8, arg: u32) -> Seq<u8> {
    seq![start, (arg >> 24u32) as u8, (arg >> 16u32) as u8, (arg >> 8u32) as u8, arg as u8]
}

/// The last byte of a frame: the CRC-7 of the head, shifted left over the
/// end bit.
pub open spec fn end_byte(head: Seq<u8>) -> u8 {
    ((crc7_mmc(head) << 1u8) | CMD_END) as u8
}

/// The frame that starts with the byte `start` and carries `arg`.
pub open spec fn frame_with_start(start: u8, arg: u32) -> Seq<u8> {
    frame_head(start, arg).push(end_byte(frame_head(start, arg)))
}

/// The frame of the command with wire index `index` and argument `arg`.
pub open spec fn command_frame(index: u8, arg: u32) -> Seq<u8> {
    frame_with_start(index | CMD_START, arg)
}

/// The command index that a frame carries in the low six bits of its
/// first byte.
pub open spec fn frame_index(frame: Seq<u8>) -> u8 {
    frame[0] & 0b0011_1111u8
}

/// The argument that a frame carries big-endian in bytes 1 to 4.
pub open spec fn frame_argument(frame: Seq<u8>) -> u32 {
    ((frame[1] as u32) << 24u32) | ((frame[2] as u32) << 16u32) | ((frame[3] as u32) << 8u32) | (
    frame[4] as u32)
}

/// Decoding a command frame gives back the index and the argument it was
/// built from, and its first byte carries the `01` start bits.
pub proof fn lemma_frame_decodes(index: u8, arg: u32)
    requires
        index < 64,
    ensures
        command_frame(index, arg).len() == FRAME_LEN,
        command_frame(index, arg)[0] & 0b1100_0000u8 == CMD_START,
        frame_index(command_frame(index, arg)) == index,
        frame_argument(command_frame(index, arg)) == arg,
{
    let f = command_frame(index, arg);
    assert(f[0] == index | CMD_START);
    assert(f[1] == (arg >> 24u32) as u8 && f[2] == (arg >> 16u32) as u8);
    assert(f[3] == (arg >> 8u32) as u8 && f[4] == arg as u8);
    assert((index | 0b0100_0000u8) & 0b1100_0000u8 == 0b0100_0000u8 && (index | 0b0100_0000u8)
        & 0b0011_1111u8 == index) by (bit_vector)
        requires
            index < 64,
    ;
    let b1 = (arg >> 24u32) as u8;
    let b2 = (arg >> 16u32) as u8;
    let b3 = (arg >> 8u32) as u8;
    let b4 = arg as u8;
    assert(((b1 as u32) << 24u32) | ((b2 as u32) << 16u32) | ((b3 as u32) << 8u32) | (b4 as u32)
        == arg) by (bit_vector)
        requires
            b1 == (arg >> 24u32) as u8,
            b2 == (arg >> 16u32) as u8,
            b3 == (arg >> 8u32) as u8,
            b4 == arg as u8,
    ;
}

/// The CRC byte that closes a frame whose first five bytes are `bytes`.
pub fn encode_end_byte(bytes: &[u8]) -> (r: u8)
    ensures
        r == end_byte(bytes@),
        r >> 1u8 == crc7_mmc(bytes@),
        r & CMD_END == CMD_END,
{
    let c = crc7(bytes);
    assert(((c << 1u8) | 1u8) >> 1u8 == c && ((c << 1u8) | 1u8) & 1u8 == 1u8) by (bit_vector)
        requires
            c < 128,
    ;
    (c << 1u8) | CMD_END
}

/// Writes the frame with start byte `start` and argument `arg` into the
/// first six bytes of `buffer`, leaving the rest as it was.
fn encode_frame(start: u8, arg: u32, buffer: &mut [u8])
    requires
        old(buffer)@.len() >= FRAME_LEN,
    ensures
        final(buffer)@.len() == old(buffer)@.len(),
        final(buffer)@.take(6) == frame_with_start(start, arg),
        final(buffer)@.skip(6) == old(buffer)@.skip(6),
        final(buffer)@[5] >> 1u8 == crc7_mmc(final(buffer)@.take(5)),
        final(buffer)@[5] & CMD_END == CMD_END,
{
    let head: [u8; 5] = [
        start,
        (arg >> 24u32) as u8,
        (arg >> 16u32) as u8,
        (arg >> 8u32) as u8,
        arg as u8,
    ];
    assert(head@ =~= frame_head(start, arg));
    let end = encode_end_byte(&head);
    let mut i: usize = 0;
    while i < 5
        invariant
            i <= 5,
            buffer@.len() == old(buffer)@.len(),
            old(buffer)@.len() >= FRAME_LEN,
            forall|j: int| 0 <= j < i ==> buffer@[j] == head@[j],
            forall|j: int| 5 <= j < buffer@.len() ==> buffer@[j] == old(buffer)@[j],
        decreases 5 - i,
    {
        buffer[i] = head[i];
        i = i + 1;
    }
    buffer[5] = end;
    assert(final(buffer)@.take(5) =~= frame_head(start, arg));
    assert(final(buffer)@.take(6) =~= frame_with_start(start, arg));
    assert(final(buffer)@.skip(6) =~= old(buffer)@.skip(6));
}

/// The commands an SD card accepts in SPI mode, including those this crate
/// does not send itself.
#[derive(Debug, Clone, Copy, PartialEq, Eq, Structural)]
pub enum Cmd {
    GoIdleState,
    SendOpCond,
    SwitchFunc,
    SendIfCond,
    SendCSD,
    SendCID,
    StopTransmisson,
    SendStatus,
    SendBlockLen,
    ReadSingleBlock,
    ReadMultipleBlock,
    WriteBlock,
    WriteMultipleBlock,
    ProgramCSD,
    SetWriteProt,
    ClrWriteProt,
    SendWriteProt,
    EraseWrBlkStartAddr,
    EraseWrBlkEndAddr,
    Erase,
    LockUnlock,
    AppCmd,
    GenCmd,
    ReadOCR,
    CRCOnOff,
}

/// The application-specific commands an SD card accepts in SPI mode. Each
/// must directly follow an [`Cmd::AppCmd`] command.
#[derive(Debug, Clone, Copy, PartialEq, Eq, Structural)]
pub enum AppCmd {
    SdStatus,
    SendNumWrBlocks,
    SetWrBlkEraseCount,
    SdSendOpCond,
    SetClrCardDetect,
    SendSCR,
}

impl Cmd {
    /// The command's index on the wire.
    pub open spec fn wire_index(self) -> u8 {
        match self {
            Cmd::GoIdleState => 0,
            Cmd::SendOpCond => 1,
            Cmd::SwitchFunc => 6,
            Cmd::SendIfCond => 8,
            Cmd::SendCSD => 9,
            Cmd::SendCID => 10,
            Cmd::StopTransmisson => 12,
            Cmd::SendStatus => 13,
            Cmd::SendBlockLen => 16,
            Cmd::ReadSingleBlock => 17,
            Cmd::ReadMultipleBlock => 18,
            Cmd::WriteBlock => 24,
            Cmd::WriteMultipleBlock => 25,
            Cmd::ProgramCSD => 27,
            Cmd::SetWriteProt => 28,
            Cmd::ClrWriteProt => 29,
            Cmd::SendWriteProt => 30,
            Cmd::EraseWrBlkStartAddr => 32,
            Cmd::EraseWrBlkEndAddr => 33,
            Cmd::Erase => 38,
            Cmd::LockUnlock => 42,
            Cmd::AppCmd => 55,
            Cmd::GenCmd => 56,
            Cmd::ReadOCR => 58,
            Cmd::CRCOnOff => 59,
        }
    }

    /// The command's index on the wire.
    pub fn index(self) -> (r: u8)
        ensures
            r == self.wire_index(),
            r < 64,
    {
        match self {
            Cmd::GoIdleState => 0,
            Cmd::SendOpCond => 1,
            Cmd::SwitchFunc => 6,
            Cmd::SendIfCond => 8,
            Cmd::SendCSD => 9,
            Cmd::SendCID => 10,
            Cmd::StopTransmisson => 12,
            Cmd::SendStatus => 13,
            Cmd::SendBlockLen => 16,
            Cmd::ReadSingleBlock => 17,
            Cmd::ReadMultipleBlock => 18,
            Cmd::WriteBlock => 24,
            Cmd::WriteMultipleBlock => 25,
            Cmd::ProgramCSD => 27,
            Cmd::SetWriteProt => 28,
            Cmd::ClrWriteProt => 29,
            Cmd::SendWriteProt => 30,
            Cmd::EraseWrBlkStartAddr => 32,
            Cmd::EraseWrBlkEndAddr => 33,
            Cmd::Erase => 38,
            Cmd::LockUnlock => 42,
            Cmd::AppCmd => 55,
            Cmd::GenCmd => 56,
            Cmd::ReadOCR => 58,
            Cmd::CRCOnOff => 59,
        }
    }
}

impl AppCmd {
    /// The application command's index on the wire.
    pub open spec fn wire_index(self) -> u8 {
        match self {
            AppCmd::SdStatus => 13,
            AppCmd::SendNumWrBlocks => 22,
            AppCmd::SetWrBlkEraseCount => 23,
            AppCmd::SdSendOpCond => 41,
            AppCmd::SetClrCardDetect => 42,
            AppCmd::SendSCR => 51,
        }
    }

    /// The application command's index on the wire.
    pub fn index(self) -> (r: u8)
        ensures
            r == self.wire_index(),
            r < 64,
    {
        match self {
            AppCmd::SdStatus => 13,
            AppCmd::SendNumWrBlocks => 22,
            AppCmd::SetWrBlkEraseCount => 23,
            AppCmd::SdSendOpCond => 41,
            AppCmd::SetClrCardDetect => 42,
            AppCmd::SendSCR => 51,
        }
    }
}

/// A command that can be written out as a 6-byte frame.
pub trait Encode: Copy {
    /// The command's index on the wire.
    spec fn command_index(self) -> u8;

    /// The first byte of the command's frame: the start bits over the index.
    fn start_byte(self) -> (r: u8)
        ensures
            self.command_index() < 64,
            r == self.command_index() | CMD_START,
    ;

    /// Writes the command's frame with argument `arg` into the first six
    /// bytes of `buffer`; the rest of `buffer` is left as it was.
    fn encode(self, arg: u32, buffer: &mut [u8])
        requires
            old(buffer)@.len() >= FRAME_LEN,
        ensures
            final(buffer)@.len() == old(buffer)@.len(),
            final(buffer)@.take(6) == command_frame(self.command_index(), arg),
            final(buffer)@.skip(6) == old(buffer)@.skip(6),
            final(buffer)@[5] >> 1u8 == crc7_mmc(final(buffer)@.take(5)),
            final(buffer)@[5] & CMD_END == CMD_END,
    ;
}

impl Encode for Cmd {
    open spec fn command_index(self) -> u8 {
        self.wire_index()
    }

    fn start_byte(self) -> (r: u8) {
        self.index() | CMD_START
    }

    fn encode(self, arg: u32, buffer: &mut [u8]) {
        encode_frame(self.start_byte(), arg, buffer)
    }
}

impl Encode for AppCmd {
    open spec fn command_index(self) -> u8 {
        self.wire_index()
    }

    fn start_byte(self) -> (r: u8) {
        self.index() | CMD_START
    }

    fn encode(self, arg: u32, buffer: &mut [u8]) {
        encode_frame(self.start_byte(), arg, buffer)
    }
}

/// Host support for the different SD card capacities.
#[derive(Debug, Clone, Copy, PartialEq, Eq, Structural)]
pub enum HostCapacitySupport {
    /// SDSC only host.
    ScOnly,
    /// SDHC or SDXC supported by host.
    HcOrXcSupported,
}

/// The host capacity support bit (HCS) of the SdSendOpCond argument.
pub const HCS_BIT: u32 = 0b0100_0000_0000_0000_0000_0000_0000_0000;

impl HostCapacitySupport {
    /// The SdSendOpCond argument that announces this support.
    pub open spec fn arg(self) -> u32 {
        match self {
            HostCapacitySupport::ScOnly => 0,
            HostCapacitySupport::HcOrXcSupported => HCS_BIT,
        }
    }

    fn to_arg(&self) -> (r: u32)
        ensures
            r == self.arg(),
    {
        match self {
            HostCapacitySupport::ScOnly => 0,
            HostCapacitySupport::HcOrXcSupported => HCS_BIT,
        }
    }
}

/// Whether the card should check the CRC of the commands it gets.
#[derive(Debug, Clone, Copy, PartialEq, Eq, Structural)]
pub enum CrcOption {
    On,
    Off,
}

impl CrcOption {
    /// The CRCOnOff argument for this option.
    pub open spec fn arg(self) -> u32 {
        match self {
            CrcOption::On => 1,
            CrcOption::Off => 0,
        }
    }

    fn to_arg(&self) -> (r: u32)
        ensures
            r == self.arg(),
    {
        match self {
            CrcOption::On => 0x0000_0001,
            CrcOption::Off => 0x0000_0000,
        }
    }
}

/// The argument of a SendIfCond command: the supplied voltage nibble in
/// bits 11 to 8 over the check pattern in bits 7 to 0.
pub open spec fn if_cond_arg(check_pattern: u8) -> u32 {
    ((VOLTAGE_2_7_TO_3_6 as u32) << 8u32) | (check_pattern as u32)
}

/// Encodes a GoIdleState command.
pub fn go_idle_state(buffer: &mut [u8])
    requires
        old(buffer)@.len() >= FRAME_LEN,
    ensures
        final(buffer)@.len() == old(buffer)@.len(),
        final(buffer)@.take(6) == command_frame(Cmd::GoIdleState.wire_index(), 0),
        final(buffer)@.skip(6) == old(buffer)@.skip(6),
{
    Cmd::GoIdleState.encode(0, buffer)
}

/// Encodes a SendIfCond command that supplies 2.7-3.6 V.
pub fn send_if_cond(check_pattern: u8, buffer: &mut [u8])
    requires
        old(buffer)@.len() >= FRAME_LEN,
    ensures
        final(buffer)@.len() == old(buffer)@.len(),
        final(buffer)@.take(6) == command_frame(Cmd::SendIfCond.wire_index(), if_cond_arg(check_pattern)),
        final(buffer)@.skip(6) == old(buffer)@.skip(6),
{
    let vhs: u32 = VOLTAGE_2_7_TO_3_6 as u32;
    Cmd::SendIfCond.encode((vhs << 8u32) | (check_pattern as u32), buffer)
}

/// Encodes an AppCmd command. The next command is then an application
/// command.
pub fn app_cmd(buffer: &mut [u8])
    requires
        old(buffer)@.len() >= FRAME_LEN,
    ensures
        final(buffer)@.len() == old(buffer)@.len(),
        final(buffer)@.take(6) == command_frame(Cmd::AppCmd.wire_index(), 0),
        final(buffer)@.skip(6) == old(buffer)@.skip(6),
{
    Cmd::AppCmd.encode(0, buffer);
}

/// Encodes an SdSendOpCond application command.
pub fn sd_send_op_cond(hcs: HostCapacitySupport, buffer: &mut [u8])
    requires
        old(buffer)@.len() >= FRAME_LEN,
    ensures
        final(buffer)@.len() == old(buffer)@.len(),
        final(buffer)@.take(6) == command_frame(AppCmd::SdSendOpCond.wire_index(), hcs.arg()),
        final(buffer)@.skip(6) == old(buffer)@.skip(6),
{
    AppCmd::SdSendOpCond.encode(hcs.to_arg(), buffer);
}

/// Encodes a CRCOnOff command.
pub fn crc_on_off(option: CrcOption, buffer: &mut [u8])
    requires
        old(buffer)@.len() >= FRAME_LEN,
    ensures
        final(buffer)@.len() == old(buffer)@.len(),
        final(buffer)@.take(6) == command_frame(Cmd::CRCOnOff.wire_index(), option.arg()),
        final(buffer)@.skip(6) == old(buffer)@.skip(6),
{
    Cmd::CRCOnOff.encode(option.to_arg(), buffer)
}

/// Encodes a ReadOCR command.
pub fn read_ocr(buffer: &mut [u8])
    requires
        old(buffer)@.len() >= FRAME_LEN,
    ensures
        final(buffer)@.len() == old(buffer)@.len(),
        final(buffer)@.take(6) == command_frame(Cmd::ReadOCR.wire_index(), 0),
        final(buffer)@.skip(6) == old(buffer)@.skip(6),
{
    Cmd::ReadOCR.encode(0, buffer)
}

} // verus!
