//! The initialization handshake that brings a card into SPI mode.
//!
//! The handshake powers the card up, then, with chip select held low, sends
//! GoIdleState, probes the card's version with SendIfCond, turns on CRC
//! checking, waits with SdSendOpCond until the card leaves the idle state
//! and, for a version 2 card, reads the OCR register to learn its capacity
//! class.
use vstd::prelude::*;

use crate::cmds::{
    self, command_frame, frame_argument, if_cond_arg, lemma_frame_decodes, AppCmd, Cmd, CrcOption,
    HostCapacitySupport, FRAME_LEN, HCS_BIT,
};
use crate::common::{CardCapacity, IF_COND_CHECK_PATTERN};
use crate::resp::{echo_check, ocr_capacity, R1Response, R3Response, R7Response, Response, ResponseError};
use crate::transactions::{
    lemma_chip_select_requests, lemma_chip_select_scope, lemma_command_frame,
    lemma_command_leaves_chip_select, lemma_scope_states, Action, ChipSelectScope, Error, Event, ExecuteCommand, Reply, Request,
};

verus! {

/// How many times SendIfCond is tried before the card counts as unusable.
pub const MAX_IF_COND_COUNT: u32 = 5;

/// How many AppCmd and SdSendOpCond pairs are sent before the card counts
/// as unusable.
pub const MAX_OP_COND_COUNT: u32 = 3_200;

/// The pause after a card answered SdSendOpCond as still idle, in
/// microseconds.
pub const OP_COND_DELAY_US: u32 = 50;

/// The pause before the card is addressed at all, in microseconds.
pub const POWER_UP_DELAY_US: u32 = 1_000;

/// How many `0xff` bytes are clocked out with chip select high at power up:
/// at least 74 clock cycles.
pub const POWER_UP_CLOCK_BYTES: usize = 10;

/// The card's version, as told by whether it accepts SendIfCond.
#[derive(Debug, Clone, Copy, PartialEq, Eq, Structural)]
pub enum Version {
    V1,
    V2,
}

impl Version {
    /// The capacity support a host announces to a card of this version.
    pub open spec fn host_support(self) -> HostCapacitySupport {
        match self {
            Version::V1 => HostCapacitySupport::ScOnly,
            Version::V2 => HostCapacitySupport::HcOrXcSupported,
        }
    }
}

impl From<Version> for HostCapacitySupport {
    fn from(version: Version) -> (r: Self)
        ensures
            r == version.host_support(),
    {
        match version {
            Version::V1 => HostCapacitySupport::ScOnly,
            Version::V2 => HostCapacitySupport::HcOrXcSupported,
        }
    }
}

impl vstd::std_specs::convert::FromSpecImpl<Version> for HostCapacitySupport {
    open spec fn obeys_from_spec() -> bool {
        true
    }

    open spec fn from_spec(v: Version) -> Self {
        v.host_support()
    }
}

/// The SendIfCond frame, with the crate's check pattern.
pub open spec fn if_cond_frame() -> Seq<u8> {
    command_frame(Cmd::SendIfCond.wire_index(), if_cond_arg(IF_COND_CHECK_PATTERN))
}

/// The AppCmd frame.
pub open spec fn app_cmd_frame() -> Seq<u8> {
    command_frame(Cmd::AppCmd.wire_index(), 0)
}

/// The SdSendOpCond frame for a card of version `v`.
pub open spec fn op_cond_frame(v: Version) -> Seq<u8> {
    command_frame(AppCmd::SdSendOpCond.wire_index(), v.host_support().arg())
}

/// The GoIdleState frame.
pub open spec fn go_idle_frame() -> Seq<u8> {
    command_frame(Cmd::GoIdleState.wire_index(), 0)
}

/// The CRCOnOff frame that turns CRC checking on.
pub open spec fn crc_on_frame() -> Seq<u8> {
    command_frame(Cmd::CRCOnOff.wire_index(), CrcOption::On.arg())
}

/// The ReadOCR frame.
pub open spec fn read_ocr_frame() -> Seq<u8> {
    command_frame(Cmd::ReadOCR.wire_index(), 0)
}

fn zeroed_frame() -> (v: Vec<u8>)
    ensures
        v@.len() == FRAME_LEN,
{
    vec![0u8; FRAME_LEN]
}

fn if_cond_command() -> (c: ExecuteCommand)
    ensures
        c == ExecuteCommand::start(if_cond_frame(), 4),
        c.wf(),
        c.done() is None,
        c.frame_bytes() == if_cond_frame(),
{
    let mut v = zeroed_frame();
    cmds::send_if_cond(IF_COND_CHECK_PATTERN, v.as_mut_slice());
    assert(v@ =~= v@.take(6));
    ExecuteCommand::new(v.as_slice(), R7Response::extra_byte_count())
}

fn app_cmd_command() -> (c: ExecuteCommand)
    ensures
        c == ExecuteCommand::start(app_cmd_frame(), 0),
        c.wf(),
        c.done() is None,
        c.frame_bytes() == app_cmd_frame(),
{
    let mut v = zeroed_frame();
    cmds::app_cmd(v.as_mut_slice());
    assert(v@ =~= v@.take(6));
    ExecuteCommand::new(v.as_slice(), R1Response::extra_byte_count())
}

fn op_cond_command(version: Version) -> (c: ExecuteCommand)
    ensures
        c == ExecuteCommand::start(op_cond_frame(version), 0),
        c.wf(),
        c.done() is None,
        c.frame_bytes() == op_cond_frame(version),
{
    let mut v = zeroed_frame();
    cmds::sd_send_op_cond(HostCapacitySupport::from(version), v.as_mut_slice());
    assert(v@ =~= v@.take(6));
    ExecuteCommand::new(v.as_slice(), R1Response::extra_byte_count())
}

fn go_idle_command() -> (c: ExecuteCommand)
    ensures
        c == ExecuteCommand::start(go_idle_frame(), 0),
        c.wf(),
        c.done() is None,
        c.frame_bytes() == go_idle_frame(),
{
    let mut v = zeroed_frame();
    cmds::go_idle_state(v.as_mut_slice());
    assert(v@ =~= v@.take(6));
    ExecuteCommand::new(v.as_slice(), R1Response::extra_byte_count())
}

fn crc_on_command() -> (c: ExecuteCommand)
    ensures
        c == ExecuteCommand::start(crc_on_frame(), 0),
        c.wf(),
        c.done() is None,
        c.frame_bytes() == crc_on_frame(),
{
    let mut v = zeroed_frame();
    cmds::crc_on_off(CrcOption::On, v.as_mut_slice());
    assert(v@ =~= v@.take(6));
    ExecuteCommand::new(v.as_slice(), R1Response::extra_byte_count())
}

fn read_ocr_command() -> (c: ExecuteCommand)
    ensures
        c == ExecuteCommand::start(read_ocr_frame(), 4),
        c.wf(),
        c.done() is None,
        c.frame_bytes() == read_ocr_frame(),
{
    let mut v = zeroed_frame();
    cmds::read_ocr(v.as_mut_slice());
    assert(v@ =~= v@.take(6));
    ExecuteCommand::new(v.as_slice(), R3Response::extra_byte_count())
}

/// Probes the card's version: sends SendIfCond up to [`MAX_IF_COND_COUNT`]
/// times. An illegal command status means a version 1 card. An echo of the
/// supplied voltage and of the check pattern means a version 2 card; any
/// other echo is retried. Any other error ends the probe.
#[derive(Debug, Clone, Copy)]
pub struct SendIfCond {
    attempts: u32,
    cmd: ExecuteCommand,
    result: Option<Result<Version, Error>>,
}

impl SendIfCond {
    /// The machine's invariant.
    pub closed spec fn wf(self) -> bool {
        self.result is None ==> {
            &&& self.attempts < MAX_IF_COND_COUNT
            &&& self.cmd.wf()
            &&& self.cmd.done() is None
        }
    }

    /// A probe that has not sent anything yet.
    pub closed spec fn initial() -> Self {
        SendIfCond { attempts: 0, cmd: ExecuteCommand::start(if_cond_frame(), 4), result: None }
    }

    /// How the probe ended, once it has.
    pub closed spec fn done(self) -> Option<Result<Version, Error>> {
        self.result
    }

    /// The action the probe asks for while it goes on.
    pub closed spec fn request(self) -> Request {
        self.cmd.request()
    }

    /// The probe once an attempt ended with `r`.
    pub closed spec fn on_reply(self, r: Result<Reply, Error>) -> Self {
        match r {
            Ok(reply) => if echo_check(reply.extra, IF_COND_CHECK_PATTERN) is Ok {
                SendIfCond { result: Some(Ok(Version::V2)), ..self }
            } else if self.attempts + 1 >= MAX_IF_COND_COUNT {
                SendIfCond { result: Some(Err(Error::UnusableCard)), ..self }
            } else {
                SendIfCond {
                    attempts: (self.attempts + 1) as u32,
                    cmd: ExecuteCommand::start(if_cond_frame(), 4),
                    result: None,
                }
            },
            Err(Error::CommandResponse { source: ResponseError::IllegalCommand }) => SendIfCond {
                result: Some(Ok(Version::V1)),
                ..self
            },
            Err(e) => SendIfCond { result: Some(Err(e)), ..self },
        }
    }

    /// The probe after `ev`.
    pub closed spec fn next(self, ev: Event) -> Self {
        if self.result is Some {
            self
        } else {
            let c = self.cmd.next(ev);
            match c.done() {
                Some(r) => SendIfCond { cmd: c, ..self }.on_reply(r),
                None => SendIfCond { cmd: c, ..self },
            }
        }
    }

    /// A probe that has not sent anything yet.
    pub fn new() -> (r: Self)
        ensures
            r == Self::initial(),
            r.wf(),
            r.done() is None,
    {
        SendIfCond { attempts: 0, cmd: if_cond_command(), result: None }
    }

    /// The action to perform next.
    pub fn action(&self) -> (a: Action)
        requires
            self.wf(),
            self.done() is None,
        ensures
            a@ == self.request(),
    {
        self.cmd.action()
    }

    /// How the probe ended, or `None` while it goes on.
    pub fn outcome(&self) -> (r: Option<Result<Version, Error>>)
        ensures
            r == self.done(),
    {
        self.result
    }

    /// Takes in the outcome of the action last asked for.
    pub fn advance(self, ev: Event) -> (r: Self)
        requires
            self.wf(),
        ensures
            r == self.next(ev),
            r.wf(),
    {
        if self.result.is_some() {
            return self;
        }
        let c = self.cmd.advance(ev);
        match c.outcome() {
            None => SendIfCond { cmd: c, ..self },
            Some(Ok(reply)) => {
                let r7 = R7Response::create(reply.r1, reply.extra);
                if r7.check(IF_COND_CHECK_PATTERN).is_ok() {
                    SendIfCond { cmd: c, result: Some(Ok(Version::V2)), ..self }
                } else if self.attempts + 1 >= MAX_IF_COND_COUNT {
                    SendIfCond { cmd: c, result: Some(Err(Error::UnusableCard)), ..self }
                } else {
                    SendIfCond { attempts: self.attempts + 1, cmd: if_cond_command(), result: None }
                }
            },
            Some(Err(Error::CommandResponse { source: ResponseError::IllegalCommand })) => {
                SendIfCond { cmd: c, result: Some(Ok(Version::V1)), ..self }
            },
            Some(Err(e)) => SendIfCond { cmd: c, result: Some(Err(e)), ..self },
        }
    }
}

/// Where a [`SendOpCond`] stands.
#[derive(Debug, Clone, Copy, PartialEq, Eq, Structural)]
pub enum OpCondPhase {
    /// Sending AppCmd.
    AppCmd,
    /// Sending SdSendOpCond.
    OpCond,
    /// Pausing before the next pair.
    Pause,
}

/// Waits for the card to leave the idle state: sends AppCmd then
/// SdSendOpCond (announcing high capacity support only to a version 2 card),
/// up to [`MAX_OP_COND_COUNT`] times, with a short pause after each answer
/// that still has the idle flag set. Any command error ends the wait.
#[derive(Debug, Clone, Copy)]
pub struct SendOpCond {
    version: Version,
    attempts: u32,
    phase: OpCondPhase,
    cmd: ExecuteCommand,
    result: Option<Result<(), Error>>,
}

impl SendOpCond {
    /// The machine's invariant.
    pub closed spec fn wf(self) -> bool {
        self.result is None ==> {
            &&& self.attempts < MAX_OP_COND_COUNT
            &&& self.phase != OpCondPhase::Pause ==> self.cmd.wf() && self.cmd.done() is None
            &&& self.phase == OpCondPhase::AppCmd ==> self.cmd.frame_bytes() == app_cmd_frame()
            &&& self.phase == OpCondPhase::OpCond ==> self.cmd.frame_bytes() == op_cond_frame(
                self.version,
            )
        }
    }

    /// A wait for a card of version `version` that has not sent anything yet.
    pub closed spec fn initial(version: Version) -> Self {
        SendOpCond {
            version,
            attempts: 0,
            phase: OpCondPhase::AppCmd,
            cmd: ExecuteCommand::start(app_cmd_frame(), 0),
            result: None,
        }
    }

    /// The version the wait was made for.
    pub closed spec fn card_version(self) -> Version {
        self.version
    }

    /// How the wait ended, once it has.
    pub closed spec fn done(self) -> Option<Result<(), Error>> {
        self.result
    }

    /// The action the wait asks for while it goes on.
    pub closed spec fn request(self) -> Request {
        if self.phase == OpCondPhase::Pause {
            Request::Delay(OP_COND_DELAY_US)
        } else {
            self.cmd.request()
        }
    }

    /// The wait after the command in flight ended with `r`.
    pub closed spec fn on_reply(self, r: Result<Reply, Error>) -> Self {
        match r {
            Err(e) => SendOpCond { result: Some(Err(e)), ..self },
            Ok(reply) => if self.phase == OpCondPhase::AppCmd {
                SendOpCond {
                    phase: OpCondPhase::OpCond,
                    cmd: ExecuteCommand::start(op_cond_frame(self.version), 0),
                    ..self
                }
            } else if !reply.r1.is_idle() {
                SendOpCond { result: Some(Ok(())), ..self }
            } else if self.attempts + 1 >= MAX_OP_COND_COUNT {
                SendOpCond { result: Some(Err(Error::UnusableCard)), ..self }
            } else {
                SendOpCond { attempts: (self.attempts + 1) as u32, phase: OpCondPhase::Pause, ..self }
            },
        }
    }

    /// The wait after `ev`.
    pub closed spec fn next(self, ev: Event) -> Self {
        if self.result is Some {
            self
        } else if self.phase == OpCondPhase::Pause {
            SendOpCond {
                phase: OpCondPhase::AppCmd,
                cmd: ExecuteCommand::start(app_cmd_frame(), 0),
                ..self
            }
        } else {
            let c = self.cmd.next(ev);
            match c.done() {
                Some(r) => SendOpCond { cmd: c, ..self }.on_reply(r),
                None => SendOpCond { cmd: c, ..self },
            }
        }
    }

    /// A wait for a card of version `version` that has not sent anything yet.
    pub fn new(version: Version) -> (r: Self)
        ensures
            r == Self::initial(version),
            r.wf(),
            r.done() is None,
    {
        proof {
            lemma_command_frame(app_cmd_frame(), 0);
        }
        SendOpCond {
            version,
            attempts: 0,
            phase: OpCondPhase::AppCmd,
            cmd: app_cmd_command(),
            result: None,
        }
    }

    /// The action to perform next.
    pub fn action(&self) -> (a: Action)
        requires
            self.wf(),
            self.done() is None,
        ensures
            a@ == self.request(),
    {
        if self.phase == OpCondPhase::Pause {
            Action::Delay(OP_COND_DELAY_US)
        } else {
            self.cmd.action()
        }
    }

    /// How the wait ended, or `None` while it goes on.
    pub fn outcome(&self) -> (r: Option<Result<(), Error>>)
        ensures
            r == self.done(),
    {
        self.result
    }

    /// Takes in the outcome of the action last asked for.
    pub fn advance(self, ev: Event) -> (r: Self)
        requires
            self.wf(),
        ensures
            r == self.next(ev),
            r.wf(),
    {
        if self.result.is_some() {
            return self;
        }
        if self.phase == OpCondPhase::Pause {
            proof {
                lemma_command_frame(app_cmd_frame(), 0);
            }
            return SendOpCond { phase: OpCondPhase::AppCmd, cmd: app_cmd_command(), ..self };
        }
        let c = self.cmd.advance(ev);
        proof {
            lemma_command_frame(self.cmd.frame_bytes(), 0);
            lemma_command_frame(op_cond_frame(self.version), 0);
        }
        match c.outcome() {
            None => SendOpCond { cmd: c, ..self },
            Some(Err(e)) => SendOpCond { cmd: c, result: Some(Err(e)), ..self },
            Some(Ok(reply)) => if self.phase == OpCondPhase::AppCmd {
                SendOpCond {
                    phase: OpCondPhase::OpCond,
                    cmd: op_cond_command(self.version),
                    ..self
                }
            } else if !reply.r1.idle() {
                SendOpCond { cmd: c, result: Some(Ok(())), ..self }
            } else if self.attempts + 1 >= MAX_OP_COND_COUNT {
                SendOpCond { cmd: c, result: Some(Err(Error::UnusableCard)), ..self }
            } else {
                SendOpCond { attempts: self.attempts + 1, phase: OpCondPhase::Pause, cmd: c, ..self }
            },
        }
    }
}

/// The bytes clocked out at power up: [`POWER_UP_CLOCK_BYTES`] times `0xff`.
pub open spec fn power_up_clocks() -> Seq<u8> {
    Seq::new(POWER_UP_CLOCK_BYTES as nat, |i: int| 0xffu8)
}

/// Where a [`PowerUpCard`] stands.
#[derive(Debug, Clone, Copy)]
pub enum PowerUpPhase {
    /// Waiting for the supply to settle.
    Settle,
    /// Driving chip select high.
    Deselect,
    /// Clocking out the dummy bytes.
    Clock,
    /// Done.
    Finished(Result<(), Error>),
}

/// The power up sequence: waits at least 1 ms, drives chip select high,
/// then clocks out at least 74 cycles with chip select still high.
#[derive(Debug, Clone, Copy)]
pub struct PowerUpCard {
    phase: PowerUpPhase,
}

impl PowerUpCard {
    /// A power up that has not started.
    pub closed spec fn initial() -> Self {
        PowerUpCard { phase: PowerUpPhase::Settle }
    }

    /// How the power up ended, once it has.
    pub closed spec fn done(self) -> Option<Result<(), Error>> {
        match self.phase {
            PowerUpPhase::Finished(r) => Some(r),
            _ => None,
        }
    }

    /// The action the power up asks for while it goes on.
    pub closed spec fn request(self) -> Request {
        match self.phase {
            PowerUpPhase::Settle => Request::Delay(POWER_UP_DELAY_US),
            PowerUpPhase::Deselect => Request::ChipSelectHigh,
            _ => Request::Write(power_up_clocks()),
        }
    }

    /// The power up after `ev`.
    pub closed spec fn next(self, ev: Event) -> Self {
        let phase = match self.phase {
            PowerUpPhase::Settle => PowerUpPhase::Deselect,
            PowerUpPhase::Deselect => match ev {
                Event::Done => PowerUpPhase::Clock,
                _ => PowerUpPhase::Finished(Err(Error::ChipSelect)),
            },
            PowerUpPhase::Clock => match ev {
                Event::Done => PowerUpPhase::Finished(Ok(())),
                _ => PowerUpPhase::Finished(Err(Error::SpiWrite)),
            },
            PowerUpPhase::Finished(r) => PowerUpPhase::Finished(r),
        };
        PowerUpCard { phase }
    }

    /// The action to perform next.
    pub fn action(&self) -> (a: Action)
        requires
            self.done() is None,
        ensures
            a@ == self.request(),
    {
        match self.phase {
            PowerUpPhase::Settle => Action::Delay(POWER_UP_DELAY_US),
            PowerUpPhase::Deselect => Action::ChipSelectHigh,
            _ => {
                let mut v: Vec<u8> = Vec::new();
                let mut i: usize = 0;
                while i < POWER_UP_CLOCK_BYTES
                    invariant
                        i <= POWER_UP_CLOCK_BYTES,
                        v@ == power_up_clocks().take(i as int),
                    decreases POWER_UP_CLOCK_BYTES - i,
                {
                    v.push(0xff);
                    i = i + 1;
                    assert(v@ =~= power_up_clocks().take(i as int));
                }
                assert(v@ =~= power_up_clocks());
                Action::Write(v)
            },
        }
    }

    /// How the power up ended, or `None` while it goes on.
    pub fn outcome(&self) -> (r: Option<Result<(), Error>>)
        ensures
            r == self.done(),
    {
        match self.phase {
            PowerUpPhase::Finished(r) => Some(r),
            _ => None,
        }
    }

    /// Takes in the outcome of the action last asked for.
    pub fn advance(self, ev: Event) -> (r: Self)
        ensures
            r == self.next(ev),
    {
        let phase = match self.phase {
            PowerUpPhase::Settle => PowerUpPhase::Deselect,
            PowerUpPhase::Deselect => match ev {
                Event::Done => PowerUpPhase::Clock,
                _ => PowerUpPhase::Finished(Err(Error::ChipSelect)),
            },
            PowerUpPhase::Clock => match ev {
                Event::Done => PowerUpPhase::Finished(Ok(())),
                _ => PowerUpPhase::Finished(Err(Error::SpiWrite)),
            },
            PowerUpPhase::Finished(r) => PowerUpPhase::Finished(r),
        };
        PowerUpCard { phase }
    }
}

/// The power up sequence, not started yet.
pub fn power_up_card() -> (r: PowerUpCard)
    ensures
        r == PowerUpCard::initial(),
        r.done() is None,
        r.request() == Request::Delay(POWER_UP_DELAY_US),
{
    PowerUpCard { phase: PowerUpPhase::Settle }
}

/// Where an [`InitilizationFlow`] stands.
#[derive(Debug, Clone, Copy)]
pub enum FlowStage {
    /// Sending GoIdleState.
    GoIdle,
    /// Probing the version with SendIfCond.
    Probe,
    /// Turning CRC checking on.
    CrcOn,
    /// Waiting with SdSendOpCond for the card to leave the idle state.
    OpCond,
    /// Reading the OCR register of a version 2 card.
    ReadOcr,
    /// Done.
    Finished(Result<CardCapacity, Error>),
}

/// The part of the handshake that runs with chip select low: GoIdleState,
/// the version probe, CRCOnOff, the wait for the card to leave the idle
/// state, and the capacity class (standard for a version 1 card, read from
/// the OCR register for a version 2 card). Any error ends it.
#[derive(Debug, Clone, Copy)]
pub struct InitilizationFlow {
    stage: FlowStage,
    cmd: ExecuteCommand,
    probe: SendIfCond,
    op: SendOpCond,
    version: Version,
}

impl InitilizationFlow {
    /// The machine's invariant.
    pub closed spec fn wf(self) -> bool {
        match self.stage {
            FlowStage::GoIdle => self.cmd.wf() && self.cmd.done() is None,
            FlowStage::Probe => self.probe.wf() && self.probe.done() is None,
            FlowStage::CrcOn => self.cmd.wf() && self.cmd.done() is None,
            FlowStage::OpCond => self.op.wf() && self.op.done() is None
                && self.op.card_version() == self.version,
            FlowStage::ReadOcr => self.cmd.wf() && self.cmd.done() is None && self.version
                == Version::V2,
            FlowStage::Finished(_) => true,
        }
    }

    /// A flow that has not sent anything yet.
    pub closed spec fn initial() -> Self {
        InitilizationFlow {
            stage: FlowStage::GoIdle,
            cmd: ExecuteCommand::start(go_idle_frame(), 0),
            probe: SendIfCond::initial(),
            op: SendOpCond::initial(Version::V1),
            version: Version::V1,
        }
    }

    /// How the flow ended, once it has.
    pub closed spec fn done(self) -> Option<Result<CardCapacity, Error>> {
        match self.stage {
            FlowStage::Finished(r) => Some(r),
            _ => None,
        }
    }

    /// The action the flow asks for while it goes on.
    pub closed spec fn request(self) -> Request {
        match self.stage {
            FlowStage::Probe => self.probe.request(),
            FlowStage::OpCond => self.op.request(),
            _ => self.cmd.request(),
        }
    }

    /// The flow after `ev`.
    pub closed spec fn next(self, ev: Event) -> Self {
        match self.stage {
            FlowStage::GoIdle => {
                let c = self.cmd.next(ev);
                match c.done() {
                    None => InitilizationFlow { cmd: c, ..self },
                    Some(Ok(_)) => InitilizationFlow {
                        stage: FlowStage::Probe,
                        cmd: c,
                        probe: SendIfCond::initial(),
                        ..self
                    },
                    Some(Err(e)) => InitilizationFlow {
                        stage: FlowStage::Finished(Err(e)),
                        cmd: c,
                        ..self
                    },
                }
            },
            FlowStage::Probe => {
                let p = self.probe.next(ev);
                match p.done() {
                    None => InitilizationFlow { probe: p, ..self },
                    Some(Ok(v)) => InitilizationFlow {
                        stage: FlowStage::CrcOn,
                        probe: p,
                        version: v,
                        cmd: ExecuteCommand::start(crc_on_frame(), 0),
                        ..self
                    },
                    Some(Err(e)) => InitilizationFlow {
                        stage: FlowStage::Finished(Err(e)),
                        probe: p,
                        ..self
                    },
                }
            },
            FlowStage::CrcOn => {
                let c = self.cmd.next(ev);
                match c.done() {
                    None => InitilizationFlow { cmd: c, ..self },
                    Some(Ok(_)) => InitilizationFlow {
                        stage: FlowStage::OpCond,
                        cmd: c,
                        op: SendOpCond::initial(self.version),
                        ..self
                    },
                    Some(Err(e)) => InitilizationFlow {
                        stage: FlowStage::Finished(Err(e)),
                        cmd: c,
                        ..self
                    },
                }
            },
            FlowStage::OpCond => {
                let o = self.op.next(ev);
                match o.done() {
                    None => InitilizationFlow { op: o, ..self },
                    Some(Ok(_)) => if self.version == Version::V1 {
                        InitilizationFlow {
                            stage: FlowStage::Finished(Ok(CardCapacity::Standard)),
                            op: o,
                            ..self
                        }
                    } else {
                        InitilizationFlow {
                            stage: FlowStage::ReadOcr,
                            op: o,
                            cmd: ExecuteCommand::start(read_ocr_frame(), 4),
                            ..self
                        }
                    },
                    Some(Err(e)) => InitilizationFlow {
                        stage: FlowStage::Finished(Err(e)),
                        op: o,
                        ..self
                    },
                }
            },
            FlowStage::ReadOcr => {
                let c = self.cmd.next(ev);
                match c.done() {
                    None => InitilizationFlow { cmd: c, ..self },
                    Some(Ok(reply)) => InitilizationFlow {
                        stage: FlowStage::Finished(Ok(ocr_capacity(reply.extra))),
                        cmd: c,
                        ..self
                    },
                    Some(Err(e)) => InitilizationFlow {
                        stage: FlowStage::Finished(Err(e)),
                        cmd: c,
                        ..self
                    },
                }
            },
            FlowStage::Finished(_) => self,
        }
    }

    /// The action to perform next.
    pub fn action(&self) -> (a: Action)
        requires
            self.wf(),
            self.done() is None,
        ensures
            a@ == self.request(),
    {
        match self.stage {
            FlowStage::Probe => self.probe.action(),
            FlowStage::OpCond => self.op.action(),
            _ => self.cmd.action(),
        }
    }

    /// How the flow ended, or `None` while it goes on.
    pub fn outcome(&self) -> (r: Option<Result<CardCapacity, Error>>)
        ensures
            r == self.done(),
    {
        match self.stage {
            FlowStage::Finished(r) => Some(r),
            _ => None,
        }
    }

    /// Takes in the outcome of the action last asked for.
    pub fn advance(self, ev: Event) -> (r: Self)
        requires
            self.wf(),
        ensures
            r == self.next(ev),
            r.wf(),
    {
        match self.stage {
            FlowStage::GoIdle => {
                let c = self.cmd.advance(ev);
                match c.outcome() {
                    None => InitilizationFlow { cmd: c, ..self },
                    Some(Ok(_)) => InitilizationFlow {
                        stage: FlowStage::Probe,
                        cmd: c,
                        probe: SendIfCond::new(),
                        ..self
                    },
                    Some(Err(e)) => InitilizationFlow {
                        stage: FlowStage::Finished(Err(e)),
                        cmd: c,
                        ..self
                    },
                }
            },
            FlowStage::Probe => {
                let p = self.probe.advance(ev);
                match p.outcome() {
                    None => InitilizationFlow { probe: p, ..self },
                    Some(Ok(v)) => InitilizationFlow {
                        stage: FlowStage::CrcOn,
                        probe: p,
                        version: v,
                        cmd: crc_on_command(),
                        ..self
                    },
                    Some(Err(e)) => InitilizationFlow {
                        stage: FlowStage::Finished(Err(e)),
                        probe: p,
                        ..self
                    },
                }
            },
            FlowStage::CrcOn => {
                let c = self.cmd.advance(ev);
                match c.outcome() {
                    None => InitilizationFlow { cmd: c, ..self },
                    Some(Ok(_)) => InitilizationFlow {
                        stage: FlowStage::OpCond,
                        cmd: c,
                        op: SendOpCond::new(self.version),
                        ..self
                    },
                    Some(Err(e)) => InitilizationFlow {
                        stage: FlowStage::Finished(Err(e)),
                        cmd: c,
                        ..self
                    },
                }
            },
            FlowStage::OpCond => {
                let o = self.op.advance(ev);
                match o.outcome() {
                    None => InitilizationFlow { op: o, ..self },
                    Some(Ok(_)) => match self.version {
                        Version::V1 => InitilizationFlow {
                            stage: FlowStage::Finished(Ok(CardCapacity::Standard)),
                            op: o,
                            ..self
                        },
                        Version::V2 => InitilizationFlow {
                            stage: FlowStage::ReadOcr,
                            op: o,
                            cmd: read_ocr_command(),
                            ..self
                        },
                    },
                    Some(Err(e)) => InitilizationFlow {
                        stage: FlowStage::Finished(Err(e)),
                        op: o,
                        ..self
                    },
                }
            },
            FlowStage::ReadOcr => {
                let c = self.cmd.advance(ev);
                match c.outcome() {
                    None => InitilizationFlow { cmd: c, ..self },
                    Some(Ok(reply)) => {
                        let r3 = R3Response::create(reply.r1, reply.extra);
                        InitilizationFlow {
                            stage: FlowStage::Finished(Ok(r3.card_capacity())),
                            cmd: c,
                            ..self
                        }
                    },
                    Some(Err(e)) => InitilizationFlow {
                        stage: FlowStage::Finished(Err(e)),
                        cmd: c,
                        ..self
                    },
                }
            },
            FlowStage::Finished(_) => self,
        }
    }
}

/// The part of the handshake that runs with chip select low, not started
/// yet.
pub fn initilization_flow() -> (r: InitilizationFlow)
    ensures
        r == InitilizationFlow::initial(),
        r.wf(),
        r.done() is None,
{
    InitilizationFlow {
        stage: FlowStage::GoIdle,
        cmd: go_idle_command(),
        probe: SendIfCond::new(),
        op: SendOpCond::new(Version::V1),
        version: Version::V1,
    }
}

/// Where a [`Handshake`] stands.
#[derive(Debug, Clone, Copy)]
pub enum HandshakeStage {
    /// Powering the card up.
    PowerUp,
    /// Running the flow inside the chip-select scope.
    Selected,
    /// Done.
    Finished(Result<CardCapacity, Error>),
}

/// The whole initialization handshake: the power up sequence, then the
/// initialization flow with chip select held low. It ends with the card's
/// capacity class or with the first error.
#[derive(Debug)]
pub struct Handshake {
    stage: HandshakeStage,
    power: PowerUpCard,
    scope: ChipSelectScope<CardCapacity>,
    flow: InitilizationFlow,
}

impl Handshake {
    /// The machine's invariant.
    pub closed spec fn wf(self) -> bool {
        match self.stage {
            HandshakeStage::PowerUp => {
                &&& self.power.done() is None
                &&& self.scope == ChipSelectScope::<CardCapacity>::initial()
                &&& self.flow == InitilizationFlow::initial()
            },
            HandshakeStage::Selected => {
                &&& self.scope.done() is None
                &&& self.flow.wf()
                &&& self.scope.in_body() ==> self.flow.done() is None
                &&& self.scope == ChipSelectScope::<CardCapacity>::initial() ==> self.flow
                    == InitilizationFlow::initial()
            },
            HandshakeStage::Finished(_) => true,
        }
    }

    /// A handshake that has not started.
    pub closed spec fn initial() -> Self {
        Handshake {
            stage: HandshakeStage::PowerUp,
            power: PowerUpCard::initial(),
            scope: ChipSelectScope::<CardCapacity>::initial(),
            flow: InitilizationFlow::initial(),
        }
    }

    /// Whether the card is powered up and the chip-select scope has begun.
    pub closed spec fn selected(self) -> bool {
        self.stage is Selected
    }

    /// Whether the initialization flow runs now, with chip select low.
    pub closed spec fn in_flow(self) -> bool {
        self.stage is Selected && self.scope.in_body()
    }

    /// How the handshake ended, once it has.
    pub closed spec fn done(self) -> Option<Result<CardCapacity, Error>> {
        match self.stage {
            HandshakeStage::Finished(r) => Some(r),
            _ => None,
        }
    }

    /// The action the handshake asks for while it goes on.
    pub closed spec fn request(self) -> Request {
        match self.stage {
            HandshakeStage::PowerUp => self.power.request(),
            _ => if self.scope.in_body() {
                self.flow.request()
            } else {
                self.scope.request()
            },
        }
    }

    /// The handshake after `ev`.
    pub closed spec fn next(self, ev: Event) -> Self {
        match self.stage {
            HandshakeStage::PowerUp => {
                let p = self.power.next(ev);
                match p.done() {
                    None => Handshake { power: p, ..self },
                    Some(Ok(_)) => Handshake { stage: HandshakeStage::Selected, power: p, ..self },
                    Some(Err(e)) => Handshake {
                        stage: HandshakeStage::Finished(Err(e)),
                        power: p,
                        ..self
                    },
                }
            },
            HandshakeStage::Selected => if self.scope.in_body() {
                let f = self.flow.next(ev);
                match f.done() {
                    Some(r) => Handshake { flow: f, scope: self.scope.close(r), ..self },
                    None => Handshake { flow: f, ..self },
                }
            } else {
                let c = self.scope.next(ev);
                match c.done() {
                    Some(r) => Handshake { stage: HandshakeStage::Finished(r), scope: c, ..self },
                    None => Handshake { scope: c, ..self },
                }
            },
            HandshakeStage::Finished(_) => self,
        }
    }

    /// A handshake that has not started.
    pub fn new() -> (r: Self)
        ensures
            r == Self::initial(),
            r.wf(),
            r.done() is None,
    {
        Handshake {
            stage: HandshakeStage::PowerUp,
            power: power_up_card(),
            scope: ChipSelectScope::new(),
            flow: initilization_flow(),
        }
    }

    /// The action to perform next.
    pub fn action(&self) -> (a: Action)
        requires
            self.wf(),
            self.done() is None,
        ensures
            a@ == self.request(),
    {
        match self.stage {
            HandshakeStage::PowerUp => self.power.action(),
            _ => if self.scope.body_running() {
                self.flow.action()
            } else {
                self.scope.action()
            },
        }
    }

    /// How the handshake ended, or `None` while it goes on.
    pub fn outcome(&self) -> (r: Option<Result<CardCapacity, Error>>)
        ensures
            r == self.done(),
    {
        match self.stage {
            HandshakeStage::Finished(r) => Some(r),
            _ => None,
        }
    }

    /// Takes in the outcome of the action last asked for.
    pub fn advance(self, ev: Event) -> (r: Self)
        requires
            self.wf(),
        ensures
            r == self.next(ev),
            r.wf(),
    {
        match self.stage {
            HandshakeStage::PowerUp => {
                proof {
                    lemma_command_frame(go_idle_frame(), 0);
                    lemma_chip_select_scope::<CardCapacity>(Ok(CardCapacity::Standard), ev);
                }
                let p = self.power.advance(ev);
                match p.outcome() {
                    None => Handshake { power: p, ..self },
                    Some(Ok(_)) => Handshake { stage: HandshakeStage::Selected, power: p, ..self },
                    Some(Err(e)) => Handshake {
                        stage: HandshakeStage::Finished(Err(e)),
                        power: p,
                        ..self
                    },
                }
            },
            HandshakeStage::Selected => if self.scope.body_running() {
                proof {
                    lemma_scope_states(self.scope, ev);
                    lemma_chip_select_scope::<CardCapacity>(self.flow.next(ev).done().unwrap(), ev);
                }
                let f = self.flow.advance(ev);
                match f.outcome() {
                    Some(r) => Handshake { flow: f, scope: self.scope.finish_body(r), ..self },
                    None => Handshake { flow: f, ..self },
                }
            } else {
                proof {
                    lemma_scope_states(self.scope, ev);
                    lemma_chip_select_scope::<CardCapacity>(Ok(CardCapacity::Standard), ev);
                    lemma_command_frame(go_idle_frame(), 0);
                }
                let c = self.scope.advance(ev);
                match c.outcome() {
                    Some(r) => Handshake { stage: HandshakeStage::Finished(r), scope: c, ..self },
                    None => Handshake { scope: c, ..self },
                }
            },
            HandshakeStage::Finished(_) => self,
        }
    }
}

/// Across all its attempts, the op-cond wait writes only the AppCmd frame
/// and the SdSendOpCond frame of its card version, which it never changes;
/// that frame's argument carries the host capacity support bit exactly for
/// a version 2 card.
pub proof fn lemma_op_cond_frames(m: SendOpCond, ev: Event)
    requires
        m.wf(),
        m.done() is None,
    ensures
        m.request() is Write ==> m.request() == Request::Write(app_cmd_frame()) || m.request()
            == Request::Write(op_cond_frame(m.card_version())),
        m.next(ev).card_version() == m.card_version(),
        frame_argument(op_cond_frame(m.card_version())) == (if m.card_version() == Version::V2 {
            HCS_BIT
        } else {
            0
        }),
{
    lemma_command_frame(app_cmd_frame(), 0);
    lemma_frame_decodes(AppCmd::SdSendOpCond.wire_index(), m.card_version().host_support().arg());
}

/// While the initialization flow runs, chip select is low and the handshake
/// never asks to drive it; outside the flow, once powered up, the handshake
/// asks only to drive chip select (low before the flow, high after it).
pub proof fn lemma_handshake_chip_select(h: Handshake)
    requires
        h.wf(),
        h.done() is None,
    ensures
        h.in_flow() ==> h.request() != Request::ChipSelectLow && h.request()
            != Request::ChipSelectHigh,
        !h.in_flow() && h.selected() ==> h.request() == Request::ChipSelectLow || h.request()
            == Request::ChipSelectHigh,
{
    lemma_command_leaves_chip_select(h.flow.cmd);
    lemma_command_leaves_chip_select(h.flow.probe.cmd);
    lemma_command_leaves_chip_select(h.flow.op.cmd);
    lemma_chip_select_requests(h.scope);
}

} // verus!
