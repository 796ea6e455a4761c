//! Bus transactions with an SD card over SPI, as state machines.
//!
//! A machine never touches the bus itself. It names the [`Action`] it wants
//! performed next; whoever drives it performs that action and hands the
//! outcome back as an [`Event`]: `Done` for a write, a chip-select change or
//! a delay that went through, `Received(byte)` for the byte an exchange
//! clocked in, and `Failed` for an action the hardware refused.
use vstd::prelude::*;

use crate::resp::{R1Response, ResponseError, status_error};

verus! {

/// How many exchanges wait for the card to release the bus.
pub const WAIT_FOR_CARD_COUNT: u32 = 32;

/// The pause between two of those exchanges, in microseconds.
pub const WAIT_FOR_CARD_DELAY_US: u32 = 10;

/// How many exchanges wait for the status byte after a command.
pub const MAX_WAIT_FOR_RESPONSE: u32 = 8;

/// The byte the bus carries when the card drives nothing: it is clocked out
/// as a placeholder and read back while the card is not answering.
pub const BUS_IDLE: u8 = 0xff;

/// What came of the action a machine asked for.
#[derive(Debug, Clone, Copy, PartialEq, Eq, Structural)]
pub enum Event {
    /// A write, chip-select change or delay went through.
    Done,
    /// An exchange clocked this byte in.
    Received(u8),
    /// The hardware refused the action.
    Failed,
}

/// A bus, chip-select or delay action for the driver to perform.
#[derive(Debug, PartialEq, Eq)]
pub enum Action {
    /// Wait this many microseconds.
    Delay(u32),
    /// Drive chip select high (card deselected).
    ChipSelectHigh,
    /// Drive chip select low (card selected).
    ChipSelectLow,
    /// Write these bytes to the bus.
    Write(Vec<u8>),
    /// Clock out one placeholder byte (`0xff`) and report the byte read back.
    Exchange,
}

/// The mathematical form of an [`Action`].
pub enum Request {
    Delay(u32),
    ChipSelectHigh,
    ChipSelectLow,
    Write(Seq<u8>),
    Exchange,
}

impl View for Action {
    type V = Request;

    open spec fn view(&self) -> Request {
        match self {
            Action::Delay(us) => Request::Delay(*us),
            Action::ChipSelectHigh => Request::ChipSelectHigh,
            Action::ChipSelectLow => Request::ChipSelectLow,
            Action::Write(bytes) => Request::Write(bytes@),
            Action::Exchange => Request::Exchange,
        }
    }
}

/// The ways a transaction with the card fails.
#[derive(Debug, Clone, Copy, PartialEq, Eq, Structural)]
pub enum Error {
    /// Chip select could not be driven.
    ChipSelect,
    /// A write to the bus failed.
    SpiWrite,
    /// An exchange on the bus failed.
    SpiTransfer,
    /// The card never released the bus.
    WaitForCardTimeout,
    /// The card never answered a command.
    WaitForResponseTimeout,
    /// The card answered a command with an error.
    CommandResponse { source: ResponseError },
    /// The card cannot be initialized and is unusable.
    UnusableCard,
}

/// Where a [`WaitForCard`] stands.
#[derive(Debug, Clone, Copy)]
pub enum ReadyPhase {
    /// Exchanging a byte to see whether the bus is released.
    Poll,
    /// Pausing before the next exchange.
    Pause,
    /// Done.
    Finished(Result<(), Error>),
}

/// Waits for the card to release the bus: exchanges placeholder bytes until
/// one reads back as `0xff`, at most [`WAIT_FOR_CARD_COUNT`] of them, with a
/// short pause between two exchanges.
#[derive(Debug, Clone, Copy)]
pub struct WaitForCard {
    attempts: u32,
    phase: ReadyPhase,
}

impl WaitForCard {
    /// The machine's invariant.
    pub closed spec fn wf(self) -> bool {
        match self.phase {
            ReadyPhase::Poll => self.attempts < WAIT_FOR_CARD_COUNT,
            ReadyPhase::Pause => 0 < self.attempts < WAIT_FOR_CARD_COUNT,
            ReadyPhase::Finished(_) => true,
        }
    }

    /// How the wait ended, once it has.
    pub closed spec fn done(self) -> Option<Result<(), Error>> {
        match self.phase {
            ReadyPhase::Finished(r) => Some(r),
            _ => None,
        }
    }

    /// The action the machine asks for while the wait goes on.
    pub closed spec fn request(self) -> Request {
        match self.phase {
            ReadyPhase::Pause => Request::Delay(WAIT_FOR_CARD_DELAY_US),
            _ => Request::Exchange,
        }
    }

    /// The machine after `ev`.
    pub closed spec fn next(self, ev: Event) -> Self {
        match self.phase {
            ReadyPhase::Poll => match ev {
                Event::Received(b) => if b == BUS_IDLE {
                    WaitForCard { attempts: self.attempts, phase: ReadyPhase::Finished(Ok(())) }
                } else if self.attempts + 1 >= WAIT_FOR_CARD_COUNT {
                    WaitForCard {
                        attempts: (self.attempts + 1) as u32,
                        phase: ReadyPhase::Finished(Err(Error::WaitForCardTimeout)),
                    }
                } else {
                    WaitForCard { attempts: (self.attempts + 1) as u32, phase: ReadyPhase::Pause }
                },
                _ => WaitForCard {
                    attempts: self.attempts,
                    phase: ReadyPhase::Finished(Err(Error::SpiTransfer)),
                },
            },
            ReadyPhase::Pause => WaitForCard { attempts: self.attempts, phase: ReadyPhase::Poll },
            ReadyPhase::Finished(_) => self,
        }
    }

    /// One while the machine pauses, zero otherwise.
    pub closed spec fn pause_measure(self) -> nat {
        if self.phase is Pause {
            1
        } else {
            0
        }
    }

    /// The machine after each exchange is answered by the next byte of
    /// `replies` and each pause goes through, until it finishes or the
    /// replies run out.
    pub closed spec fn feed(self, replies: Seq<u8>) -> Self
        decreases replies.len(), self.pause_measure(),
    {
        match self.phase {
            ReadyPhase::Finished(_) => self,
            ReadyPhase::Pause => self.next(Event::Done).feed(replies),
            ReadyPhase::Poll => if replies.len() == 0 {
                self
            } else {
                self.next(Event::Received(replies[0])).feed(replies.drop_first())
            },
        }
    }

    /// A wait that has not exchanged anything yet.
    pub closed spec fn initial() -> Self {
        WaitForCard { attempts: 0, phase: ReadyPhase::Poll }
    }

    /// A wait that has not exchanged anything yet.
    pub fn new() -> (r: Self)
        ensures
            r == Self::initial(),
            r.wf(),
            r.done() is None,
            r.request() == Request::Exchange,
    {
        WaitForCard { attempts: 0, phase: ReadyPhase::Poll }
    }

    /// The action to perform next.
    pub fn action(&self) -> (a: Action)
        requires
            self.done() is None,
        ensures
            a@ == self.request(),
    {
        match self.phase {
            ReadyPhase::Pause => Action::Delay(WAIT_FOR_CARD_DELAY_US),
            _ => Action::Exchange,
        }
    }

    /// How the wait ended, or `None` while it goes on.
    pub fn outcome(&self) -> (r: Option<Result<(), Error>>)
        ensures
            r == self.done(),
    {
        match self.phase {
            ReadyPhase::Finished(r) => Some(r),
            _ => None,
        }
    }

    /// Takes in the outcome of the action last asked for.
    pub fn advance(self, ev: Event) -> (r: Self)
        requires
            self.wf(),
        ensures
            r == self.next(ev),
            r.wf(),
    {
        match self.phase {
            ReadyPhase::Poll => match ev {
                Event::Received(b) => if b == BUS_IDLE {
                    WaitForCard { attempts: self.attempts, phase: ReadyPhase::Finished(Ok(())) }
                } else if self.attempts + 1 >= WAIT_FOR_CARD_COUNT {
                    WaitForCard {
                        attempts: self.attempts + 1,
                        phase: ReadyPhase::Finished(Err(Error::WaitForCardTimeout)),
                    }
                } else {
                    WaitForCard { attempts: self.attempts + 1, phase: ReadyPhase::Pause }
                },
                _ => WaitForCard {
                    attempts: self.attempts,
                    phase: ReadyPhase::Finished(Err(Error::SpiTransfer)),
                },
            },
            ReadyPhase::Pause => WaitForCard { attempts: self.attempts, phase: ReadyPhase::Poll },
            ReadyPhase::Finished(_) => self,
        }
    }
}

proof fn lemma_feed_wait(m: WaitForCard, replies: Seq<u8>)
    requires
        m.wf(),
        m.done() is None,
    ensures
        replies.len() >= WAIT_FOR_CARD_COUNT - m.attempts && (forall|j: int|
            0 <= j < WAIT_FOR_CARD_COUNT - m.attempts ==> replies[j] != BUS_IDLE) ==> m.feed(
            replies,
        ).done() == Some(Err::<(), Error>(Error::WaitForCardTimeout)),
        forall|k: int|
            0 <= k < replies.len() && k < WAIT_FOR_CARD_COUNT - m.attempts && replies[k] == BUS_IDLE
                && (forall|j: int| 0 <= j < k ==> replies[j] != BUS_IDLE) ==> m.feed(replies).done()
                == Some(Ok::<(), Error>(())),
    decreases replies.len(), m.pause_measure(),
{
    match m.phase {
        ReadyPhase::Pause => {
            lemma_feed_wait(m.next(Event::Done), replies);
        },
        ReadyPhase::Poll => {
            if replies.len() > 0 {
                let n = m.next(Event::Received(replies[0]));
                let rest = replies.drop_first();
                if replies[0] != BUS_IDLE && m.attempts + 1 < WAIT_FOR_CARD_COUNT {
                    lemma_feed_wait(n, rest);
                    assert forall|k: int|
                        0 <= k < replies.len() && k < WAIT_FOR_CARD_COUNT - m.attempts
                            && replies[k] == BUS_IDLE && (forall|j: int|
                            0 <= j < k ==> replies[j] != BUS_IDLE) implies m.feed(replies).done()
                        == Some(Ok::<(), Error>(())) by {
                        assert(k > 0);
                        assert(rest[k - 1] == BUS_IDLE);
                        assert forall|j: int| 0 <= j < k - 1 implies rest[j] != BUS_IDLE by {
                            assert(replies[j + 1] != BUS_IDLE);
                        }
                    }
                    if replies.len() >= WAIT_FOR_CARD_COUNT - m.attempts && (forall|j: int|
                        0 <= j < WAIT_FOR_CARD_COUNT - m.attempts ==> replies[j] != BUS_IDLE) {
                        assert forall|j: int|
                            0 <= j < WAIT_FOR_CARD_COUNT - n.attempts implies rest[j]
                            != BUS_IDLE by {
                            assert(replies[j + 1] != BUS_IDLE);
                        }
                    }
                }
            }
        },
        ReadyPhase::Finished(_) => {},
    }
}

/// Waiting for the card: when the first `0xff` comes back on exchange `k`
/// (counting from 0) with `k` under the bound, the wait succeeds; when none
/// of the first [`WAIT_FOR_CARD_COUNT`] exchanges brings one, the wait fails
/// with [`Error::WaitForCardTimeout`].
pub proof fn lemma_wait_for_card_outcome(replies: Seq<u8>, k: int)
    ensures
        0 <= k < replies.len() && k < WAIT_FOR_CARD_COUNT && replies[k] == BUS_IDLE && (forall|j: int|
            0 <= j < k ==> replies[j] != BUS_IDLE) ==> WaitForCard::initial().feed(replies).done()
            == Some(Ok::<(), Error>(())),
        replies.len() >= WAIT_FOR_CARD_COUNT && (forall|j: int|
            0 <= j < WAIT_FOR_CARD_COUNT ==> replies[j] != BUS_IDLE) ==> WaitForCard::initial().feed(
            replies,
        ).done() == Some(Err::<(), Error>(Error::WaitForCardTimeout)),
{
    let m = WaitForCard { attempts: 0, phase: ReadyPhase::Poll };
    lemma_feed_wait(m, replies);
}

/// The six bytes of a command frame.
#[derive(Debug, Clone, Copy, PartialEq, Eq, Structural)]
pub struct Frame(pub u8, pub u8, pub u8, pub u8, pub u8, pub u8);

impl View for Frame {
    type V = Seq<u8>;

    open spec fn view(&self) -> Seq<u8> {
        seq![self.0, self.1, self.2, self.3, self.4, self.5]
    }
}

impl Frame {
    /// The frame holding the first six bytes of `s`.
    pub open spec fn from_seq(s: Seq<u8>) -> Frame {
        Frame(s[0], s[1], s[2], s[3], s[4], s[5])
    }

    /// The frame holding the six bytes of `bytes`.
    pub fn from_slice(bytes: &[u8]) -> (r: Frame)
        requires
            bytes@.len() == 6,
        ensures
            r == Frame::from_seq(bytes@),
            r@ == bytes@,
    {
        let r = Frame(bytes[0], bytes[1], bytes[2], bytes[3], bytes[4], bytes[5]);
        assert(r@ =~= bytes@);
        r
    }

    /// The frame's bytes in a vector.
    pub fn to_vec(&self) -> (v: Vec<u8>)
        ensures
            v@ == self@,
    {
        let v = vec![self.0, self.1, self.2, self.3, self.4, self.5];
        assert(v@ =~= self@);
        v
    }
}

/// A status byte, and the extra bytes that followed it big-endian in a word
/// (zero when none did).
#[derive(Debug, Clone, Copy, PartialEq, Eq, Structural)]
pub struct Reply {
    pub r1: R1Response,
    pub extra: u32,
}

/// Where an [`ExecuteCommand`] stands.
#[derive(Debug, Clone, Copy)]
pub enum CommandPhase {
    /// Waiting for the card to release the bus.
    Ready(WaitForCard),
    /// Writing the frame.
    Write,
    /// Polling for the status byte; holds how many polls came back empty.
    Status(u32),
    /// Reading the extra bytes: the status, how many came, and the word so far.
    Extra(R1Response, usize, u32),
    /// Done.
    Finished(Result<Reply, Error>),
}

/// The end of a command once its status and extra bytes are in: the status
/// is checked for errors.
pub open spec fn settle(r1: R1Response, extra: u32) -> CommandPhase {
    match status_error(r1.0) {
        Some(e) => CommandPhase::Finished(Err(Error::CommandResponse { source: e })),
        None => CommandPhase::Finished(Ok(Reply { r1, extra })),
    }
}

/// The word after one more big-endian byte.
pub open spec fn push_be(word: u32, b: u8) -> u32 {
    (word << 8u32) | (b as u32)
}

/// Sends one command and collects its response: waits for the card, writes
/// the frame, then polls up to [`MAX_WAIT_FOR_RESPONSE`] times for a status
/// byte. Unless the status says the rest is left out, it reads the extra
/// bytes of the response format, then checks the status for errors.
#[derive(Debug, Clone, Copy)]
pub struct ExecuteCommand {
    frame: Frame,
    extra_len: usize,
    phase: CommandPhase,
}

impl ExecuteCommand {
    /// The machine's invariant.
    pub closed spec fn wf(self) -> bool {
        &&& self.extra_len <= 4
        &&& match self.phase {
            CommandPhase::Ready(w) => w.wf() && w.done() is None,
            CommandPhase::Status(n) => n < MAX_WAIT_FOR_RESPONSE,
            CommandPhase::Extra(_, got, _) => got < self.extra_len,
            _ => true,
        }
    }

    /// The frame the machine writes.
    pub closed spec fn frame_bytes(self) -> Seq<u8> {
        self.frame@
    }

    /// The command that writes `frame` (six bytes) and expects `extra_len`
    /// bytes after the status byte, before anything was done.
    pub closed spec fn start(frame: Seq<u8>, extra_len: usize) -> Self {
        ExecuteCommand {
            frame: Frame::from_seq(frame),
            extra_len,
            phase: CommandPhase::Ready(WaitForCard::initial()),
        }
    }

    /// How the command ended, once it has.
    pub closed spec fn done(self) -> Option<Result<Reply, Error>> {
        match self.phase {
            CommandPhase::Finished(r) => Some(r),
            _ => None,
        }
    }

    /// The action the machine asks for while the command goes on.
    pub closed spec fn request(self) -> Request {
        match self.phase {
            CommandPhase::Ready(w) => w.request(),
            CommandPhase::Write => Request::Write(self.frame@),
            _ => Request::Exchange,
        }
    }

    /// The phase after a status byte `b` came in.
    pub closed spec fn on_status(self, b: u8) -> CommandPhase {
        if R1Response(b).is_truncated() || self.extra_len == 0 {
            settle(R1Response(b), 0)
        } else {
            CommandPhase::Extra(R1Response(b), 0, 0)
        }
    }

    /// The machine after `ev`.
    pub closed spec fn next(self, ev: Event) -> Self {
        let phase = match self.phase {
            CommandPhase::Ready(w) => match w.next(ev).done() {
                Some(Ok(_)) => CommandPhase::Write,
                Some(Err(e)) => CommandPhase::Finished(Err(e)),
                None => CommandPhase::Ready(w.next(ev)),
            },
            CommandPhase::Write => match ev {
                Event::Done => CommandPhase::Status(0),
                _ => CommandPhase::Finished(Err(Error::SpiWrite)),
            },
            CommandPhase::Status(n) => match ev {
                Event::Received(b) => if b != BUS_IDLE {
                    self.on_status(b)
                } else if n + 1 >= MAX_WAIT_FOR_RESPONSE {
                    CommandPhase::Finished(Err(Error::WaitForResponseTimeout))
                } else {
                    CommandPhase::Status((n + 1) as u32)
                },
                _ => CommandPhase::Finished(Err(Error::SpiTransfer)),
            },
            CommandPhase::Extra(r1, got, word) => match ev {
                Event::Received(b) => if got + 1 >= self.extra_len {
                    settle(r1, push_be(word, b))
                } else {
                    CommandPhase::Extra(r1, (got + 1) as usize, push_be(word, b))
                },
                _ => CommandPhase::Finished(Err(Error::SpiTransfer)),
            },
            CommandPhase::Finished(_) => self.phase,
        };
        ExecuteCommand { frame: self.frame, extra_len: self.extra_len, phase }
    }

    /// The command that writes `cmd` (six bytes) and expects `extra_len`
    /// bytes after the status byte.
    pub fn new(cmd: &[u8], extra_len: usize) -> (r: Self)
        requires
            cmd@.len() == 6,
            extra_len <= 4,
        ensures
            r == Self::start(cmd@, extra_len),
            r.wf(),
            r.done() is None,
            r.request() == Request::Exchange,
            r.frame_bytes() == cmd@,
    {
        let w = WaitForCard::new();
        ExecuteCommand {
            frame: Frame::from_slice(cmd),
            extra_len,
            phase: CommandPhase::Ready(w),
        }
    }

    /// The action to perform next.
    pub fn action(&self) -> (a: Action)
        requires
            self.wf(),
            self.done() is None,
        ensures
            a@ == self.request(),
    {
        match self.phase {
            CommandPhase::Ready(w) => w.action(),
            CommandPhase::Write => Action::Write(self.frame.to_vec()),
            _ => Action::Exchange,
        }
    }

    /// How the command ended, or `None` while it goes on.
    pub fn outcome(&self) -> (r: Option<Result<Reply, Error>>)
        ensures
            r == self.done(),
    {
        match self.phase {
            CommandPhase::Finished(r) => Some(r),
            _ => None,
        }
    }

    /// Takes in the outcome of the action last asked for.
    pub fn advance(self, ev: Event) -> (r: Self)
        requires
            self.wf(),
        ensures
            r == self.next(ev),
            r.wf(),
    {
        let phase = match self.phase {
            CommandPhase::Ready(w) => {
                let w2 = w.advance(ev);
                match w2.outcome() {
                    Some(Ok(_)) => CommandPhase::Write,
                    Some(Err(e)) => CommandPhase::Finished(Err(e)),
                    None => CommandPhase::Ready(w2),
                }
            },
            CommandPhase::Write => match ev {
                Event::Done => CommandPhase::Status(0),
                _ => CommandPhase::Finished(Err(Error::SpiWrite)),
            },
            CommandPhase::Status(n) => match ev {
                Event::Received(b) => if b != BUS_IDLE {
                    let r1 = R1Response::new(b);
                    if r1.response_truncated() || self.extra_len == 0 {
                        settle_exec(r1, 0)
                    } else {
                        CommandPhase::Extra(r1, 0, 0)
                    }
                } else if n + 1 >= MAX_WAIT_FOR_RESPONSE {
                    CommandPhase::Finished(Err(Error::WaitForResponseTimeout))
                } else {
                    CommandPhase::Status(n + 1)
                },
                _ => CommandPhase::Finished(Err(Error::SpiTransfer)),
            },
            CommandPhase::Extra(r1, got, word) => match ev {
                Event::Received(b) => {
                    let w = (word << 8u32) | (b as u32);
                    if got + 1 >= self.extra_len {
                        settle_exec(r1, w)
                    } else {
                        CommandPhase::Extra(r1, got + 1, w)
                    }
                },
                _ => CommandPhase::Finished(Err(Error::SpiTransfer)),
            },
            CommandPhase::Finished(r) => CommandPhase::Finished(r),
        };
        ExecuteCommand { frame: self.frame, extra_len: self.extra_len, phase }
    }
}

fn settle_exec(r1: R1Response, extra: u32) -> (p: CommandPhase)
    ensures
        p == settle(r1, extra),
{
    match r1.check_error() {
        Ok(r1) => CommandPhase::Finished(Ok(Reply { r1, extra })),
        Err(e) => CommandPhase::Finished(Err(Error::CommandResponse { source: e })),
    }
}

/// Where a [`ChipSelectScope`] stands.
#[derive(Debug)]
pub enum ScopePhase<T> {
    /// Driving chip select low.
    Lowering,
    /// Chip select is low; the body runs.
    Body,
    /// Driving chip select back high; holds the result so far.
    Raising(Result<T, Error>),
    /// Done.
    Finished(Result<T, Error>),
}

/// Runs a body with chip select held low: drives it low, lets the body run,
/// then drives it high again on every path, whether the body ran, succeeded
/// or failed. The first error wins: that of driving it low, then that of
/// the body, then that of driving it high.
#[derive(Debug)]
pub struct ChipSelectScope<T> {
    phase: ScopePhase<T>,
}

/// The result of a scope whose body (or whose lowering) ended with `r`,
/// after chip select was driven high with outcome `ev`.
pub open spec fn scope_result<T>(r: Result<T, Error>, ev: Event) -> Result<T, Error> {
    match ev {
        Event::Done => r,
        _ => match r {
            Ok(_) => Err(Error::ChipSelect),
            Err(e) => Err(e),
        },
    }
}

impl<T: Copy> ChipSelectScope<T> {
    /// A scope that has not driven chip select yet.
    pub closed spec fn initial() -> Self {
        ChipSelectScope { phase: ScopePhase::Lowering }
    }

    /// Whether the body runs now (chip select is low).
    pub closed spec fn in_body(self) -> bool {
        self.phase is Body
    }

    /// How the scope ended, once it has.
    pub closed spec fn done(self) -> Option<Result<T, Error>> {
        match self.phase {
            ScopePhase::Finished(r) => Some(r),
            _ => None,
        }
    }

    /// The chip-select action the scope asks for outside the body.
    pub closed spec fn request(self) -> Request {
        match self.phase {
            ScopePhase::Lowering => Request::ChipSelectLow,
            _ => Request::ChipSelectHigh,
        }
    }

    /// The scope after the outcome `ev` of its own chip-select action.
    pub closed spec fn next(self, ev: Event) -> Self {
        match self.phase {
            ScopePhase::Lowering => match ev {
                Event::Done => ChipSelectScope { phase: ScopePhase::Body },
                _ => ChipSelectScope { phase: ScopePhase::Raising(Err(Error::ChipSelect)) },
            },
            ScopePhase::Raising(r) => ChipSelectScope {
                phase: ScopePhase::Finished(scope_result(r, ev)),
            },
            _ => self,
        }
    }

    /// The scope once its body ended with `r`.
    pub closed spec fn close(self, r: Result<T, Error>) -> Self {
        ChipSelectScope { phase: ScopePhase::Raising(r) }
    }

    /// A scope that has not driven chip select yet.
    pub fn new() -> (r: Self)
        ensures
            r == Self::initial(),
    {
        ChipSelectScope { phase: ScopePhase::Lowering }
    }

    /// Whether the body runs now.
    pub fn body_running(&self) -> (r: bool)
        ensures
            r == self.in_body(),
    {
        match self.phase {
            ScopePhase::Body => true,
            _ => false,
        }
    }

    /// The chip-select action to perform next, outside the body.
    pub fn action(&self) -> (a: Action)
        ensures
            a@ == self.request(),
    {
        match self.phase {
            ScopePhase::Lowering => Action::ChipSelectLow,
            _ => Action::ChipSelectHigh,
        }
    }

    /// How the scope ended, or `None` while it goes on.
    pub fn outcome(&self) -> (r: Option<Result<T, Error>>)
        ensures
            r == self.done(),
    {
        match self.phase {
            ScopePhase::Finished(r) => Some(r),
            _ => None,
        }
    }

    /// Takes in the outcome of the chip-select action last asked for.
    pub fn advance(self, ev: Event) -> (r: Self)
        requires
            !self.in_body(),
        ensures
            r == self.next(ev),
    {
        match self.phase {
            ScopePhase::Lowering => match ev {
                Event::Done => ChipSelectScope { phase: ScopePhase::Body },
                _ => ChipSelectScope { phase: ScopePhase::Raising(Err(Error::ChipSelect)) },
            },
            ScopePhase::Raising(r) => {
                let r2 = match ev {
                    Event::Done => r,
                    _ => match r {
                        Ok(_) => Err(Error::ChipSelect),
                        Err(e) => Err(e),
                    },
                };
                ChipSelectScope { phase: ScopePhase::Finished(r2) }
            },
            _ => self,
        }
    }

    /// Ends the body with `r`; chip select is to go high next.
    pub fn finish_body(self, r: Result<T, Error>) -> (s: Self)
        requires
            self.in_body(),
        ensures
            s == self.close(r),
    {
        ChipSelectScope { phase: ScopePhase::Raising(r) }
    }
}

/// A chip-select scope drives chip select low first, and only once that
/// went through does the body run; whatever the body ends with (success or
/// failure), chip select is driven high next, and the scope ends with the
/// body's result, or with [`Error::ChipSelect`] when a successful body is
/// followed by a failed release. A failed lowering skips the body but still
/// drives chip select high, and ends with [`Error::ChipSelect`].
pub proof fn lemma_chip_select_scope<T: Copy>(r: Result<T, Error>, ev: Event)
    ensures
        ChipSelectScope::<T>::initial().request() == Request::ChipSelectLow,
        !ChipSelectScope::<T>::initial().in_body(),
        ChipSelectScope::<T>::initial().done() is None,
        ChipSelectScope::<T>::initial().next(Event::Done).in_body(),
        ev != Event::Done ==> {
            let s = ChipSelectScope::<T>::initial().next(ev);
            &&& !s.in_body()
            &&& s.done() is None
            &&& s.request() == Request::ChipSelectHigh
            &&& s.next(Event::Done).done() == Some(Err::<T, Error>(Error::ChipSelect))
            &&& s.next(Event::Failed).done() == Some(Err::<T, Error>(Error::ChipSelect))
        },
        ({
            let s = ChipSelectScope::<T>::initial().next(Event::Done).close(r);
            &&& !s.in_body()
            &&& s.done() is None
            &&& s.request() == Request::ChipSelectHigh
            &&& s.next(Event::Done).done() == Some(r)
            &&& r is Err ==> s.next(ev).done() == Some(r)
            &&& r is Ok && ev != Event::Done ==> s.next(ev).done() == Some(
                Err::<T, Error>(Error::ChipSelect),
            )
        }),
{
}

/// A command machine keeps its frame through every step, writes no other
/// frame, and starts out with the frame it was made with.
pub proof fn lemma_command_frame(frame: Seq<u8>, extra_len: usize)
    requires
        frame.len() == 6,
        extra_len <= 4,
    ensures
        ExecuteCommand::start(frame, extra_len).frame_bytes() == frame,
        ExecuteCommand::start(frame, extra_len).wf(),
        ExecuteCommand::start(frame, extra_len).done() is None,
        forall|c: ExecuteCommand, ev: Event| #[trigger]
            c.next(ev).frame_bytes() == c.frame_bytes(),
        forall|c: ExecuteCommand| #[trigger]
            c.request() is Write ==> c.request() == Request::Write(c.frame_bytes()),
{
    assert(Frame::from_seq(frame)@ =~= frame);
    assert forall|c: ExecuteCommand| #[trigger]
        c.request() is Write implies c.request() == Request::Write(c.frame_bytes()) by {
        match c.phase {
            CommandPhase::Ready(w) => {
                assert(w.request() !is Write);
            },
            _ => {},
        }
    }
}

/// A scope runs its body in one state only, the one right after chip select
/// went low; every scope but the initial one finishes on its next
/// chip-select outcome when it is not running its body.
pub proof fn lemma_scope_states<T: Copy>(s: ChipSelectScope<T>, ev: Event)
    ensures
        s.in_body() ==> s == ChipSelectScope::<T>::initial().next(Event::Done),
        !s.in_body() && s.done() is None && s != ChipSelectScope::<T>::initial() ==> s.next(
            ev,
        ).done() is Some,
{
}

/// A command machine never asks to drive chip select.
pub proof fn lemma_command_leaves_chip_select(c: ExecuteCommand)
    ensures
        c.request() != Request::ChipSelectLow,
        c.request() != Request::ChipSelectHigh,
{
}

/// Outside its body a scope asks only to drive chip select.
pub proof fn lemma_chip_select_requests<T: Copy>(s: ChipSelectScope<T>)
    ensures
        s.request() == Request::ChipSelectLow || s.request() == Request::ChipSelectHigh,
{
}

} // verus!
