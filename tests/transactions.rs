use sdspi::initialization::{
    initilization_flow, power_up_card, Handshake, InitilizationFlow, PowerUpCard, SendIfCond,
    SendOpCond, Version, MAX_IF_COND_COUNT, MAX_OP_COND_COUNT,
};
use sdspi::resp::ResponseError;
use sdspi::transactions::{
    Action, ChipSelectScope, Error, Event, ExecuteCommand, Reply, WaitForCard, WAIT_FOR_CARD_COUNT,
};
use sdspi::{CardCapacity, IF_COND_CHECK_PATTERN, VOLTAGE_2_7_TO_3_6};

/// One step of a bus script: what the machine must ask for, and how the
/// bus answers.
#[derive(Debug, Clone)]
enum Bus {
    /// An exchange that reads back this byte.
    Transfer(u8),
    /// A write of exactly these bytes, which goes through.
    Write(Vec<u8>),
    /// A write of exactly these bytes, which fails.
    WriteFails(Vec<u8>),
    /// An exchange that fails.
    TransferFails,
}

/// The chip-select and delay steps a run went through, in order.
#[derive(Debug, Clone, PartialEq)]
enum Side {
    Low,
    High,
    Delay(u32),
}

trait Machine: Sized {
    type Out;
    fn act(&self) -> Action;
    fn step(self, ev: Event) -> Self;
    fn out(&self) -> Option<Result<Self::Out, Error>>;
}

impl Machine for WaitForCard {
    type Out = ();
    fn act(&self) -> Action {
        self.action()
    }
    fn step(self, ev: Event) -> Self {
        self.advance(ev)
    }
    fn out(&self) -> Option<Result<(), Error>> {
        self.outcome()
    }
}

impl Machine for ExecuteCommand {
    type Out = Reply;
    fn act(&self) -> Action {
        self.action()
    }
    fn step(self, ev: Event) -> Self {
        self.advance(ev)
    }
    fn out(&self) -> Option<Result<Reply, Error>> {
        self.outcome()
    }
}

impl Machine for SendIfCond {
    type Out = Version;
    fn act(&self) -> Action {
        self.action()
    }
    fn step(self, ev: Event) -> Self {
        self.advance(ev)
    }
    fn out(&self) -> Option<Result<Version, Error>> {
        self.outcome()
    }
}

impl Machine for SendOpCond {
    type Out = ();
    fn act(&self) -> Action {
        self.action()
    }
    fn step(self, ev: Event) -> Self {
        self.advance(ev)
    }
    fn out(&self) -> Option<Result<(), Error>> {
        self.outcome()
    }
}

impl Machine for PowerUpCard {
    type Out = ();
    fn act(&self) -> Action {
        self.action()
    }
    fn step(self, ev: Event) -> Self {
        self.advance(ev)
    }
    fn out(&self) -> Option<Result<(), Error>> {
        self.outcome()
    }
}

impl Machine for InitilizationFlow {
    type Out = CardCapacity;
    fn act(&self) -> Action {
        self.action()
    }
    fn step(self, ev: Event) -> Self {
        self.advance(ev)
    }
    fn out(&self) -> Option<Result<CardCapacity, Error>> {
        self.outcome()
    }
}

impl Machine for Handshake {
    type Out = CardCapacity;
    fn act(&self) -> Action {
        self.action()
    }
    fn step(self, ev: Event) -> Self {
        self.advance(ev)
    }
    fn out(&self) -> Option<Result<CardCapacity, Error>> {
        self.outcome()
    }
}

/// Runs `m` against `script`: every write and exchange must be the next
/// step of the script, chip-select changes and delays go through (the
/// chip-select changes in `cs_fails` fail, counted from 0). The whole
/// script must be used up.
fn run_with<M: Machine>(mut m: M, script: &[Bus], cs_fails: &[usize]) -> (Result<M::Out, Error>, Vec<Side>) {
    let mut next = 0;
    let mut side = Vec::new();
    let mut cs_count = 0;
    loop {
        if let Some(r) = m.out() {
            assert_eq!(next, script.len(), "the script was not used up");
            return (r, side);
        }
        let ev = match m.act() {
            Action::Delay(us) => {
                side.push(Side::Delay(us));
                Event::Done
            }
            Action::ChipSelectLow | Action::ChipSelectHigh => {
                let a = m.act();
                side.push(if a == Action::ChipSelectLow { Side::Low } else { Side::High });
                cs_count += 1;
                if cs_fails.contains(&(cs_count - 1)) {
                    Event::Failed
                } else {
                    Event::Done
                }
            }
            Action::Write(bytes) => {
                let step = script.get(next).cloned().expect("unexpected write");
                next += 1;
                match step {
                    Bus::Write(w) => {
                        assert_eq!(bytes, w, "wrong bytes written");
                        Event::Done
                    }
                    Bus::WriteFails(w) => {
                        assert_eq!(bytes, w, "wrong bytes written");
                        Event::Failed
                    }
                    other => panic!("expected {other:?}, got a write of {bytes:?}"),
                }
            }
            Action::Exchange => {
                let step = script.get(next).cloned().expect("unexpected exchange");
                next += 1;
                match step {
                    Bus::Transfer(b) => Event::Received(b),
                    Bus::TransferFails => Event::Failed,
                    other => panic!("expected {other:?}, got an exchange"),
                }
            }
        };
        m = m.step(ev);
    }
}

fn run<M: Machine>(m: M, script: &[Bus]) -> Result<M::Out, Error> {
    run_with(m, script, &[]).0
}

fn transfer(b: u8) -> Bus {
    Bus::Transfer(b)
}

fn write(bytes: Vec<u8>) -> Bus {
    Bus::Write(bytes)
}

fn command(cmd: &[u8]) -> ExecuteCommand {
    ExecuteCommand::new(cmd, 0)
}

#[test]
fn transactions_power_up_card_has_74_clocks_with_cs_high() {
    let (result, side) = run_with(power_up_card(), &[write([0xff; 10].to_vec())], &[]);

    result.expect("Unable to power up");
    assert_eq!(side, vec![Side::Delay(1000), Side::High]);
}

#[test]
fn transactions_power_up_card_handles_cs_high_error() {
    let (result, side) = run_with(power_up_card(), &[], &[0]);

    assert_eq!(result, Err(Error::ChipSelect));
    assert_eq!(side, vec![Side::Delay(1000), Side::High]);
}

#[test]
fn initilization_power_up_card_has_74_clocks_with_cs_high() {
    let (result, side) = run_with(power_up_card(), &[write([0xff; 10].to_vec())], &[]);

    result.expect("Unable to power up");
    assert_eq!(side.last(), Some(&Side::High));
}

#[test]
fn initilization_power_up_card_handles_cs_high_error() {
    let (result, _) = run_with(power_up_card(), &[], &[0]);

    assert_eq!(result, Err(Error::ChipSelect));
}

#[test]
fn power_up_card_write_failure_is_spi_write() {
    let script = [Bus::WriteFails([0xff; 10].to_vec())];

    assert_eq!(run(power_up_card(), &script), Err(Error::SpiWrite));
}

#[test]
fn with_cs_low_toggles_cs() {
    let scope: ChipSelectScope<()> = ChipSelectScope::new();
    assert!(!scope.body_running());
    assert_eq!(scope.action(), Action::ChipSelectLow);

    let scope = scope.advance(Event::Done);
    assert!(scope.body_running());

    let scope = scope.finish_body(Ok(()));
    assert!(!scope.body_running());
    assert_eq!(scope.action(), Action::ChipSelectHigh);

    let scope = scope.advance(Event::Done);
    assert_eq!(scope.outcome(), Some(Ok(())));
}

#[test]
fn with_cs_low_raises_cs_after_failing_body() {
    let scope: ChipSelectScope<u8> = ChipSelectScope::new().advance(Event::Done);
    let scope = scope.finish_body(Err(Error::SpiTransfer));
    assert_eq!(scope.action(), Action::ChipSelectHigh);
    assert_eq!(scope.outcome(), None);

    let failed_release = scope.advance(Event::Failed);
    assert_eq!(failed_release.outcome(), Some(Err(Error::SpiTransfer)));
}

#[test]
fn with_cs_low_body_error_wins_and_release_error_counts() {
    let scope: ChipSelectScope<u8> = ChipSelectScope::new().advance(Event::Done);
    let scope = scope.finish_body(Ok(7));
    assert_eq!(scope.advance(Event::Failed).outcome(), Some(Err(Error::ChipSelect)));

    let scope: ChipSelectScope<u8> = ChipSelectScope::new().advance(Event::Done);
    assert_eq!(scope.finish_body(Ok(7)).advance(Event::Done).outcome(), Some(Ok(7)));
}

#[test]
fn with_cs_low_failed_lowering_skips_body_but_raises() {
    let scope: ChipSelectScope<u8> = ChipSelectScope::new().advance(Event::Failed);
    assert!(!scope.body_running());
    assert_eq!(scope.action(), Action::ChipSelectHigh);
    assert_eq!(scope.advance(Event::Done).outcome(), Some(Err(Error::ChipSelect)));
}

#[test]
fn wait_for_card_is_ok_after_cipo_high() {
    let script = [transfer(0x00), transfer(0x00), transfer(0x00), transfer(0xff)];

    let result = run(WaitForCard::new(), &script);

    assert_eq!(result, Ok(()));
}

#[test]
fn wait_for_card_is_error_after_too_much_cipo_low() {
    let script = vec![transfer(0x00); WAIT_FOR_CARD_COUNT as usize];

    let result = run(WaitForCard::new(), &script);

    assert_eq!(result, Err(Error::WaitForCardTimeout));
}

#[test]
fn wait_for_card_succeeds_on_last_allowed_attempt() {
    let mut script = vec![transfer(0x01); WAIT_FOR_CARD_COUNT as usize - 1];
    script.push(transfer(0xff));

    let (result, side) = run_with(WaitForCard::new(), &script, &[]);

    assert_eq!(result, Ok(()));
    assert_eq!(side.len(), WAIT_FOR_CARD_COUNT as usize - 1);
}

#[test]
fn wait_for_card_succeeds_on_first_attempt() {
    let (result, side) = run_with(WaitForCard::new(), &[transfer(0xff)], &[]);

    assert_eq!(result, Ok(()));
    assert!(side.is_empty());
}

#[test]
fn wait_for_card_transfer_failure_is_spi_transfer() {
    assert_eq!(run(WaitForCard::new(), &[Bus::TransferFails]), Err(Error::SpiTransfer));
}

#[test]
fn execute_command_writes_command() {
    let cmd = vec![0x01, 0x02, 0x03, 0x04, 0x05, 0x06];
    let script = [transfer(0xff), write(cmd.clone()), transfer(0x00)];

    run(command(&cmd), &script).expect("error executing command");
}

#[test]
fn execute_command_with_error_response_is_error() {
    let cmd = vec![0x01, 0x02, 0x03, 0x04, 0x05, 0x06];
    let script = [transfer(0xff), write(cmd.clone()), transfer(0b0100_0000)];

    let result = run(command(&cmd), &script);

    assert!(matches!(result, Err(Error::CommandResponse { source: _ })));
}

#[test]
fn execute_command_with_no_response_times_out() {
    let cmd = vec![0x01, 0x02, 0x03, 0x04, 0x05, 0x06];
    let mut script = vec![transfer(0xff), write(cmd.clone())];
    script.extend(vec![transfer(0xff); 8]);

    let result = run(command(&cmd), &script);

    assert!(matches!(result, Err(Error::WaitForResponseTimeout)));
}

#[test]
fn execute_command_reads_extra_bytes_big_endian() {
    let cmd = vec![0x7a, 0, 0, 0, 0, 0xfd];
    let script = [
        transfer(0xff),
        write(cmd.clone()),
        transfer(0xff),
        transfer(0x01),
        transfer(0xc0),
        transfer(0xff),
        transfer(0x80),
        transfer(0x00),
    ];

    let result = run(ExecuteCommand::new(&cmd, 4), &script);

    assert_eq!(result.map(|r| (r.r1.0, r.extra)), Ok((0x01, 0xc0ff_8000)));
}

#[test]
fn execute_command_skips_extra_bytes_of_truncated_response() {
    let cmd = vec![0x48, 0, 0, 0x01, 0x55, 0x75];
    let script = [transfer(0xff), write(cmd.clone()), transfer(0b0000_1000)];

    let result = run(ExecuteCommand::new(&cmd, 4), &script);

    assert_eq!(result.map(|r| r.extra), Err(Error::CommandResponse { source: ResponseError::ComCrcError }));
}

#[test]
fn execute_command_reads_extra_bytes_before_reporting_other_errors() {
    let cmd = vec![0x48, 0, 0, 0x01, 0x55, 0x75];
    let script = [
        transfer(0xff),
        write(cmd.clone()),
        transfer(0b0010_0000),
        transfer(0),
        transfer(0),
        transfer(0),
        transfer(0),
    ];

    let result = run(ExecuteCommand::new(&cmd, 4), &script);

    assert_eq!(result.map(|r| r.extra), Err(Error::CommandResponse { source: ResponseError::AddressError }));
}

#[test]
fn execute_command_write_failure_is_spi_write() {
    let cmd = vec![0x40, 0, 0, 0, 0, 0x95];
    let script = [transfer(0xff), Bus::WriteFails(cmd.clone())];

    assert_eq!(run(command(&cmd), &script).map(|r| r.extra), Err(Error::SpiWrite));
}

fn if_cond_command() -> Vec<u8> {
    vec![0b0100_1000, 0, 0, VOLTAGE_2_7_TO_3_6, 85, 117]
}

fn r7_echo(pattern: u8) -> Vec<Bus> {
    vec![
        transfer(0xff),
        write(if_cond_command()),
        transfer(0),
        transfer(0),
        transfer(0),
        transfer(VOLTAGE_2_7_TO_3_6),
        transfer(pattern),
    ]
}

#[test]
fn send_if_cond_illegal_command_is_v1() {
    let script = [transfer(0xff), write(if_cond_command()), transfer(0b0000_0100)];

    let result = run(SendIfCond::new(), &script);

    assert!(matches!(result, Ok(Version::V1)));
}

#[test]
fn send_if_cond_with_valid_r7_is_v2() {
    let result = run(SendIfCond::new(), &r7_echo(85));

    assert!(matches!(result, Ok(Version::V2)));
}

#[test]
fn send_if_cond_with_valid_r7_on_second_try_is_v2() {
    let mut script = r7_echo(12);
    script.extend(r7_echo(85));

    let result = run(SendIfCond::new(), &script);

    assert!(matches!(result, Ok(Version::V2)));
}

#[test]
fn send_if_cond_with_repeated_invalid_r7_is_unusable() {
    let check_pattern = IF_COND_CHECK_PATTERN;
    let not_check_pattern = check_pattern + 5;
    let mut script = Vec::new();
    for _ in 0..MAX_IF_COND_COUNT {
        script.extend(r7_echo(not_check_pattern));
    }

    let result = run(SendIfCond::new(), &script);

    assert!(matches!(result, Err(Error::UnusableCard)));
}

#[test]
fn send_if_cond_with_valid_r7_on_fifth_try_is_v2() {
    let mut script = Vec::new();
    for _ in 0..4 {
        script.extend(r7_echo(0x13));
    }
    script.extend(r7_echo(IF_COND_CHECK_PATTERN));

    assert_eq!(run(SendIfCond::new(), &script), Ok(Version::V2));
}

#[test]
fn send_if_cond_with_wrong_voltage_retries() {
    let mut script = vec![
        transfer(0xff),
        write(if_cond_command()),
        transfer(0),
        transfer(0),
        transfer(0),
        transfer(0b0000_0010),
        transfer(IF_COND_CHECK_PATTERN),
    ];
    script.extend(r7_echo(IF_COND_CHECK_PATTERN));

    assert_eq!(run(SendIfCond::new(), &script), Ok(Version::V2));
}

#[test]
fn send_if_cond_with_other_error_is_error() {
    let script = vec![
        transfer(0xff),
        write(if_cond_command()),
        transfer(0b0100_0000),
        transfer(0),
        transfer(0),
        transfer(0),
        transfer(0),
    ];

    assert_eq!(
        run(SendIfCond::new(), &script),
        Err(Error::CommandResponse { source: ResponseError::ParameterError })
    );
}

fn app_cmd() -> Vec<u8> {
    vec![0b0111_0111, 0, 0, 0, 0, 101]
}

fn op_cond_v1() -> Vec<u8> {
    vec![0b0110_1001, 0b0000_0000, 0, 0, 0, 229]
}

fn op_cond_v2() -> Vec<u8> {
    vec![0b0110_1001, 0b0100_0000, 0, 0, 0, 119]
}

fn op_cond_pair(op_cond: Vec<u8>, app_status: u8, status: u8) -> Vec<Bus> {
    vec![
        transfer(0xff),
        write(app_cmd()),
        transfer(app_status),
        transfer(0xff),
        write(op_cond),
        transfer(status),
    ]
}

#[test]
fn send_op_cond_for_v1_supports_sdsc_as_expected() {
    let script = op_cond_pair(op_cond_v1(), 0, 0);

    run(SendOpCond::new(Version::V1), &script).expect("Unable to send op cond.");
}

#[test]
fn send_op_cond_for_v2_supports_hc_and_xc_as_expected() {
    let script = op_cond_pair(op_cond_v2(), 0, 0);

    run(SendOpCond::new(Version::V2), &script).expect("Unable to send op cond.");
}

#[test]
fn send_op_cond_with_idle_response_repeats() {
    let mut script = op_cond_pair(op_cond_v2(), 0b0000_0001, 0b0000_0001);
    script.extend(op_cond_pair(op_cond_v2(), 0b0000_0001, 0b0000_0000));

    let (result, side) = run_with(SendOpCond::new(Version::V2), &script, &[]);

    result.expect("Unable to send op cond.");
    assert_eq!(side, vec![Side::Delay(50)]);
}

#[test]
fn send_op_cond_with_repeated_idle_response_is_unuable() {
    let mut script = Vec::new();
    for _ in 0..MAX_OP_COND_COUNT {
        script.extend(op_cond_pair(op_cond_v2(), 0b0000_0001, 0b0000_0001));
    }

    let result = run(SendOpCond::new(Version::V2), &script);

    assert_eq!(result, Err(Error::UnusableCard));
}

#[test]
fn send_op_cond_ready_on_fourth_attempt_for_v1() {
    let mut script = Vec::new();
    for _ in 0..3 {
        script.extend(op_cond_pair(op_cond_v1(), 0b0000_0001, 0b0000_0001));
    }
    script.extend(op_cond_pair(op_cond_v1(), 0b0000_0001, 0b0000_0000));

    let (result, side) = run_with(SendOpCond::new(Version::V1), &script, &[]);

    assert_eq!(result, Ok(()));
    assert_eq!(side, vec![Side::Delay(50); 3]);
}

#[test]
fn send_op_cond_app_cmd_error_is_error() {
    let script = vec![transfer(0xff), write(app_cmd()), transfer(0b0000_0100)];

    assert_eq!(
        run(SendOpCond::new(Version::V1), &script),
        Err(Error::CommandResponse { source: ResponseError::IllegalCommand })
    );
}

fn go_idle() -> Vec<Bus> {
    vec![transfer(0xff), write(vec![0x40, 0, 0, 0, 0, 0x95]), transfer(0x01)]
}

fn crc_on() -> Vec<Bus> {
    let mut frame = [0u8; 6];
    sdspi::cmds::crc_on_off(sdspi::cmds::CrcOption::On, &mut frame);
    vec![transfer(0xff), write(frame.to_vec()), transfer(0x01)]
}

fn read_ocr(first: u8) -> Vec<Bus> {
    let mut frame = [0u8; 6];
    sdspi::cmds::read_ocr(&mut frame);
    vec![
        transfer(0xff),
        write(frame.to_vec()),
        transfer(0x00),
        transfer(first),
        transfer(0xff),
        transfer(0x80),
        transfer(0x00),
    ]
}

#[test]
fn initilization_flow_for_v1_card_is_standard() {
    let mut script = go_idle();
    script.extend([transfer(0xff), write(if_cond_command()), transfer(0b0000_0101)]);
    script.extend(crc_on());
    script.extend(op_cond_pair(op_cond_v1(), 0x01, 0x00));

    assert_eq!(run(initilization_flow(), &script), Ok(CardCapacity::Standard));
}

#[test]
fn initilization_flow_for_v2_card_reads_capacity() {
    for (first, capacity) in [(0xc0, CardCapacity::HighOrExtended), (0x80, CardCapacity::Standard)] {
        let mut script = go_idle();
        script.extend(r7_echo(IF_COND_CHECK_PATTERN));
        script.extend(crc_on());
        script.extend(op_cond_pair(op_cond_v2(), 0x01, 0x00));
        script.extend(read_ocr(first));

        assert_eq!(run(initilization_flow(), &script), Ok(capacity));
    }
}

#[test]
fn initilization_flow_go_idle_error_is_fatal() {
    let script = [transfer(0xff), write(vec![0x40, 0, 0, 0, 0, 0x95]), transfer(0b0000_1001)];

    assert_eq!(
        run(initilization_flow(), &script),
        Err(Error::CommandResponse { source: ResponseError::ComCrcError })
    );
}

#[test]
fn handshake_brings_v2_card_up_with_cs_scoped() {
    let mut script = vec![write([0xff; 10].to_vec())];
    script.extend(go_idle());
    script.extend(r7_echo(IF_COND_CHECK_PATTERN));
    script.extend(crc_on());
    script.extend(op_cond_pair(op_cond_v2(), 0x01, 0x00));
    script.extend(read_ocr(0xc0));

    let (result, side) = run_with(Handshake::new(), &script, &[]);

    assert_eq!(result, Ok(CardCapacity::HighOrExtended));
    assert_eq!(side, vec![Side::Delay(1000), Side::High, Side::Low, Side::High]);
}

#[test]
fn handshake_raises_cs_after_flow_failure() {
    let mut script = vec![write([0xff; 10].to_vec())];
    script.extend([transfer(0xff), Bus::WriteFails(vec![0x40, 0, 0, 0, 0, 0x95])]);

    let (result, side) = run_with(Handshake::new(), &script, &[2]);

    assert_eq!(result, Err(Error::SpiWrite));
    assert_eq!(side, vec![Side::Delay(1000), Side::High, Side::Low, Side::High]);
}

#[test]
fn handshake_power_up_failure_skips_flow() {
    let (result, side) = run_with(Handshake::new(), &[], &[0]);

    assert_eq!(result, Err(Error::ChipSelect));
    assert_eq!(side, vec![Side::Delay(1000), Side::High]);
}
