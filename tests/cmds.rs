use sdspi::cmds::{
    encode_end_byte, go_idle_state, send_if_cond, sd_send_op_cond, AppCmd, Cmd, Encode,
    HostCapacitySupport,
};
use sdspi::cmds::{app_cmd, crc_on_off, read_ocr, CrcOption};

fn crc7(bytes: &[u8]) -> u8 {
    crc::Crc::<u8>::new(&crc::CRC_7_MMC).checksum(bytes)
}

#[test]
fn cmd_start_byte_includes_start_bits() {
    assert_eq!(Cmd::GoIdleState.start_byte(), 0x40);
    assert_eq!(Cmd::SendOpCond.start_byte(), 0x41);
}

#[test]
fn go_idle_cmd_encodes_as_specifified() {
    let mut buffer = [0; 6];

    Cmd::GoIdleState.encode(0, &mut buffer);

    assert_eq!(buffer, [0x40, 0x00, 0x00, 0x00, 0x00, 0x95]);
}

#[test]
fn read_single_block_cmd_encodes_as_expected() {
    let mut buffer = [0; 6];
    let addr = 0x12345678;

    Cmd::ReadSingleBlock.encode(addr, &mut buffer);

    assert_eq!(&buffer[0..5], [0x51, 0x12, 0x34, 0x56, 0x78]);
    assert_eq!((buffer[5] & 0b1111_1110) >> 1, crc7(&buffer[0..5]));
}

#[test]
fn sd_status_cmd_encodes_as_expected() {
    let mut buffer = [0; 6];

    AppCmd::SdStatus.encode(0, &mut buffer);

    assert_eq!(&buffer[0..5], [0x4d, 0x00, 0x00, 0x00, 0x00]);
    assert_eq!((buffer[5] & 0b1111_1110) >> 1, crc7(&buffer[0..5]));
}

#[test]
fn set_wr_blk_erase_count_cmd_encodes_as_expected() {
    let mut buffer = [0; 6];

    AppCmd::SetWrBlkEraseCount.encode(0x01, &mut buffer);

    assert_eq!(&buffer[0..5], [0x57, 0x00, 0x00, 0x00, 0x01]);
    assert_eq!((buffer[5] & 0b1111_1110) >> 1, crc7(&buffer[0..5]));
}

#[test]
fn send_if_cond_encodes_as_expected() {
    let mut buffer = [0; 6];
    let check_pattern = 0x42;

    send_if_cond(check_pattern, &mut buffer);

    assert_eq!(&buffer[0..5], [0x48, 0x00, 0x00, 0x01, check_pattern]);
    assert_eq!((buffer[5] & 0b1111_1110) >> 1, crc7(&buffer[0..5]));
}

#[test]
fn sd_send_op_code_encodes_as_expected() {
    let mut buffer = [0; 6];

    sd_send_op_cond(HostCapacitySupport::HcOrXcSupported, &mut buffer);

    assert_eq!(&buffer[0..5], [0x69, 0x40, 0x00, 0x00, 0x00]);
    assert_eq!((buffer[5] & 0b1111_1110) >> 1, crc7(&buffer[0..5]));
}

#[test]
fn go_idle_state_encodes_reference_frame() {
    let mut buffer = [0xaa; 8];

    go_idle_state(&mut buffer);

    assert_eq!(buffer, [0x40, 0x00, 0x00, 0x00, 0x00, 0x95, 0xaa, 0xaa]);
}

#[test]
fn end_byte_of_go_idle_head_is_0x95() {
    assert_eq!(encode_end_byte(&[0x40, 0, 0, 0, 0]), 0x95);
    assert_eq!(encode_end_byte(&[0x48, 0, 0, 0x01, 0xaa]), 0x87);
}

#[test]
fn frame_decodes_to_index_and_argument() {
    for (cmd, index) in [(Cmd::GoIdleState, 0u8), (Cmd::ReadSingleBlock, 17), (Cmd::CRCOnOff, 59)] {
        for arg in [0u32, 1, 0x1234_5678, 0xffff_ffff] {
            let mut buffer = [0; 6];
            cmd.encode(arg, &mut buffer);
            assert_eq!(buffer[0] & 0xc0, 0x40);
            assert_eq!(buffer[0] & 0x3f, index);
            assert_eq!(u32::from_be_bytes([buffer[1], buffer[2], buffer[3], buffer[4]]), arg);
            assert_eq!(buffer[5] >> 1, crc7(&buffer[0..5]));
            assert_eq!(buffer[5] & 1, 1);
        }
    }
}

#[test]
fn other_commands_encode_as_expected() {
    let mut buffer = [0; 6];
    app_cmd(&mut buffer);
    assert_eq!(buffer, [0x77, 0, 0, 0, 0, 101]);

    sd_send_op_cond(HostCapacitySupport::ScOnly, &mut buffer);
    assert_eq!(buffer, [0x69, 0, 0, 0, 0, 229]);

    crc_on_off(CrcOption::On, &mut buffer);
    assert_eq!(&buffer[0..5], [0x7b, 0, 0, 0, 1]);
    assert_eq!(buffer[5] >> 1, crc7(&buffer[0..5]));

    crc_on_off(CrcOption::Off, &mut buffer);
    assert_eq!(&buffer[0..5], [0x7b, 0, 0, 0, 0]);

    read_ocr(&mut buffer);
    assert_eq!(&buffer[0..5], [0x7a, 0, 0, 0, 0]);
    assert_eq!(buffer[5] & 1, 1);
}
