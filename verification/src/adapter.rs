//! The device's session: one event in, one reply out, with at most one call
//! into the record store in between.

use vstd::prelude::*;
use crate::buffer::{Buffer, Contents, BUFFER_SIZE};
use crate::error::{AppError, FileError};
use crate::indicators::{Indicators, Lamps};
use crate::sdmmc::file::{digits, lemma_name_of_address, FileName};
use crate::sdmmc::request::{answer_of, Answer, Call, Request};
use crate::sm2m::input;
use crate::sm2m::output;

verus! {

/// The phase of the session.
#[derive(Clone, Copy, Debug, PartialEq, Eq)]
pub enum Mode {
    Ready,
    Address,
    Read,
    Write,
    Error(u16),
}

/// An event as the session understands it in its mode.
#[derive(Clone, Copy, Debug, PartialEq, Eq)]
pub enum InputFrame {
    Reset,
    Stop,
    CheckStatus,
    Address(u16),
    Read,
    Write,
    Data(u16),
}

impl Mode {
    /// What an event means in this mode. The reset and end lines win over
    /// the payload in every mode. While the session is ready or addressed
    /// the payload is a command; in every other mode it is plain data,
    /// whatever its bits.
    pub open spec fn spec_decode(self, action: input::Action) -> InputFrame {
        match action {
            input::Action::Reset => InputFrame::Reset,
            input::Action::Stop => InputFrame::Stop,
            input::Action::Data(payload) => if self is Ready || self is Address {
                match input::Frame::spec_from(payload) {
                    input::Frame::CheckStatus => InputFrame::CheckStatus,
                    input::Frame::Address(address) => InputFrame::Address(address),
                    input::Frame::Write => InputFrame::Write,
                    input::Frame::Read => InputFrame::Read,
                    input::Frame::Data(data) => InputFrame::Data(data),
                }
            } else {
                InputFrame::Data(payload)
            },
        }
    }

    pub fn decode(&self, action: input::Action) -> (frame: InputFrame)
        ensures
            frame == self.spec_decode(action),
    {
        match action {
            input::Action::Reset => InputFrame::Reset,
            input::Action::Stop => InputFrame::Stop,
            input::Action::Data(payload) => match self {
                Mode::Ready | Mode::Address => match input::Frame::from(payload) {
                    input::Frame::CheckStatus => InputFrame::CheckStatus,
                    input::Frame::Address(address) => InputFrame::Address(address),
                    input::Frame::Write => InputFrame::Write,
                    input::Frame::Read => InputFrame::Read,
                    input::Frame::Data(data) => InputFrame::Data(data),
                },
                _ => InputFrame::Data(payload),
            },
        }
    }
}

/// What the device waits for while a call into the record store is out.
#[derive(Clone, Copy, Debug, PartialEq, Eq)]
pub enum Pending {
    /// The probe behind a status check.
    CheckStatus,
    /// The first chunk of a record about to be read.
    OpenRead,
    /// The removal of a record about to be written.
    OpenWrite,
    /// The next chunk of the record being read.
    Fetch,
    /// The flush of a full buffer.
    Flush,
    /// The flush of what is left when the host ends its transfer.
    Stop,
}

/// What the device does with an event: it replies at once, or it asks for a
/// call into the record store and replies once the outcome is known.
pub enum Step {
    Reply(output::Frame),
    Storage(Request),
}

/// A step by its content.
pub enum Move {
    Reply(output::Frame),
    Storage(Call),
}

impl View for Step {
    type V = Move;

    open spec fn view(&self) -> Move {
        match self {
            Step::Reply(frame) => Move::Reply(*frame),
            Step::Storage(request) => Move::Storage(request@),
        }
    }
}

/// The session by its content.
pub struct State {
    pub mode: Mode,
    /// The name of the record last addressed.
    pub name: Seq<u8>,
    pub buffer: Contents,
    /// How far into the record the buffered bytes reach.
    pub file_pos: nat,
    pub lamps: Lamps,
    pub pending: Option<Pending>,
    /// Whether a record is copied before it is overwritten.
    pub with_backup: bool,
}

impl State {
    /// The lamps that the mode calls for: none while ready or addressed, the
    /// write lamp during a write, the read lamp during a read, and the fault
    /// lamp, beside what was lit before, while a fault is latched.
    pub open spec fn lamps_follow_mode(self) -> bool {
        match self.mode {
            Mode::Ready => self.lamps == Lamps::dark(),
            Mode::Address => self.lamps == Lamps::dark(),
            Mode::Write => self.lamps == (Lamps { write: true, ..Lamps::dark() }),
            Mode::Read => self.lamps == (Lamps { read: true, ..Lamps::dark() }),
            Mode::Error(_) => self.lamps.system_error,
        }
    }

    /// The buffer is within its bounds and holds whole words while the host
    /// writes; the capacity is a whole number of words; the lamps follow the
    /// mode; a call is out only in the mode that makes it.
    pub open spec fn wf(self) -> bool {
        &&& self.buffer.wf()
        &&& self.lamps_follow_mode()
        &&& 2 <= self.buffer.capacity <= BUFFER_SIZE
        &&& self.buffer.capacity % 2 == 0
        &&& self.file_pos <= u32::MAX
        &&& self.name.len() <= 5
        &&& forall|i: int| 0 <= i < self.name.len() ==> 0x30 <= #[trigger] self.name[i] <= 0x39
        &&& self.mode is Write ==> self.buffer.bytes.len() % 2 == 0
        &&& self.mode is Write && self.pending is None ==> !self.buffer.full()
        &&& match self.pending {
            None => true,
            Some(Pending::CheckStatus) => self.mode is Ready,
            Some(Pending::OpenRead) => self.mode is Address,
            Some(Pending::OpenWrite) => self.mode is Address,
            Some(Pending::Fetch) => self.mode is Read,
            Some(Pending::Flush) => self.mode is Write,
            Some(Pending::Stop) => self.mode is Write,
        }
    }

    /// The session at rest: ready, buffer empty, at the start of a record,
    /// every lamp off, no call out.
    pub open spec fn reset(self) -> State {
        State {
            mode: Mode::Ready,
            buffer: self.buffer.cleared(),
            file_pos: 0,
            lamps: Lamps::dark(),
            pending: None,
            ..self
        }
    }

    /// The session latched on a fault, and the reply that announces it.
    pub open spec fn fail(self, opcode: u16) -> (State, output::Frame) {
        (
            State {
                mode: Mode::Error(opcode),
                lamps: Lamps { system_error: true, ..self.lamps },
                pending: None,
                ..self
            },
            output::Frame::Error(opcode),
        )
    }

    /// The next word of the buffer as a reply.
    pub open spec fn send_word(self) -> (State, output::Frame) {
        (
            State { buffer: self.buffer.advanced(), pending: None, ..self },
            output::Frame::Data(self.buffer.next_word()),
        )
    }

    /// What an event does to a session with no call out.
    ///
    /// A reset puts the session at rest. A stop flushes what a write has
    /// left in the buffer and otherwise puts the session at rest. A word is
    /// a command while the session is ready or addressed, a continuation
    /// while it reads, data while it writes, and is answered with the
    /// latched opcode while it is at fault.
    pub open spec fn execute(self, action: input::Action) -> (State, Move) {
        match action {
            input::Action::Reset => (self.reset(), Move::Reply(output::Frame::Ack)),
            input::Action::Stop => if self.mode is Write && self.buffer.bytes.len() > 0 {
                (
                    State { pending: Some(Pending::Stop), ..self },
                    Move::Storage(Call::Append { name: self.name, data: self.buffer.bytes }),
                )
            } else {
                (self.reset(), Move::Reply(output::Frame::Ack))
            },
            input::Action::Data(payload) => match self.mode {
                Mode::Ready => match input::Frame::spec_from(payload) {
                    input::Frame::CheckStatus => (
                        State { pending: Some(Pending::CheckStatus), ..self },
                        Move::Storage(Call::Probe),
                    ),
                    input::Frame::Address(address) => (
                        State { mode: Mode::Address, name: digits(address as nat), ..self },
                        Move::Reply(output::Frame::Ack),
                    ),
                    _ => (
                        self.fail(AppError::UnhandledReadyCommand.spec_opcode()).0,
                        Move::Reply(self.fail(AppError::UnhandledReadyCommand.spec_opcode()).1),
                    ),
                },
                Mode::Address => match input::Frame::spec_from(payload) {
                    input::Frame::Read => (
                        State { pending: Some(Pending::OpenRead), ..self },
                        Move::Storage(
                            Call::Fetch { name: self.name, offset: 0, len: self.buffer.capacity },
                        ),
                    ),
                    input::Frame::Write => (
                        State { pending: Some(Pending::OpenWrite), ..self },
                        Move::Storage(Call::Remove { name: self.name, backup: self.with_backup }),
                    ),
                    _ => (
                        self.fail(AppError::UnhandledAddressCommand.spec_opcode()).0,
                        Move::Reply(self.fail(AppError::UnhandledAddressCommand.spec_opcode()).1),
                    ),
                },
                Mode::Read => if self.buffer.exhausted() {
                    (
                        State { pending: Some(Pending::Fetch), ..self },
                        Move::Storage(
                            Call::Fetch {
                                name: self.name,
                                offset: self.file_pos,
                                len: self.buffer.capacity,
                            },
                        ),
                    )
                } else {
                    (self.send_word().0, Move::Reply(self.send_word().1))
                },
                Mode::Write => if self.buffer.pushed(payload).full() {
                    (
                        State {
                            buffer: self.buffer.pushed(payload),
                            pending: Some(Pending::Flush),
                            ..self
                        },
                        Move::Storage(
                            Call::Append {
                                name: self.name,
                                data: self.buffer.pushed(payload).bytes,
                            },
                        ),
                    )
                } else {
                    (
                        State { buffer: self.buffer.pushed(payload), ..self },
                        Move::Reply(output::Frame::Ack),
                    )
                },
                Mode::Error(opcode) => (self, Move::Reply(output::Frame::Error(opcode))),
            },
        }
    }

    /// What the outcome of the call that is out does to the session.
    ///
    /// A fault of the record store latches the session on the fault's
    /// opcode, but for a failed probe, which always reads as a detached
    /// card. Otherwise the session goes on where the call left it: a probe
    /// is acknowledged; a removal opens the write; a first chunk opens the
    /// read; a further chunk is taken into the buffer and its first word
    /// sent; a flush empties the buffer; a flush at a stop puts the session
    /// at rest.
    pub open spec fn complete(self, answer: Answer) -> (State, output::Frame)
        recommends
            self.pending is Some,
    {
        match self.pending {
            None => arbitrary(),
            Some(pending) => match answer {
                Err(error) => if pending is CheckStatus {
                    self.fail(AppError::SdmmcDetached.spec_opcode())
                } else {
                    self.fail(error.spec_opcode())
                },
                Ok(bytes) => match pending {
                    Pending::CheckStatus => (
                        State { pending: None, ..self },
                        output::Frame::Ack,
                    ),
                    Pending::OpenRead => (
                        State {
                            mode: Mode::Read,
                            buffer: self.buffer.refilled(bytes),
                            file_pos: self.buffer.taken(bytes),
                            lamps: Lamps { read: true, ..self.lamps },
                            pending: None,
                            ..self
                        },
                        output::Frame::Ack,
                    ),
                    Pending::OpenWrite => (
                        State {
                            mode: Mode::Write,
                            buffer: self.buffer.cleared(),
                            lamps: Lamps { write: true, ..self.lamps },
                            pending: None,
                            ..self
                        },
                        output::Frame::Ack,
                    ),
                    Pending::Fetch => if self.file_pos + self.buffer.taken(bytes) > u32::MAX {
                        self.fail(AppError::SdMmcFile(FileError::InvalidOffset).spec_opcode())
                    } else {
                        (State {
                            buffer: self.buffer.refilled(bytes),
                            file_pos: self.file_pos + self.buffer.taken(bytes),
                            ..self
                        }).send_word()
                    },
                    Pending::Flush => (
                        State { buffer: self.buffer.cleared(), pending: None, ..self },
                        output::Frame::Ack,
                    ),
                    Pending::Stop => (self.reset(), output::Frame::Ack),
                },
            },
        }
    }
}

/// The device.
pub struct Device {
    mode: Mode,
    file_name: FileName,
    buf: Buffer,
    file_pos: u32,
    indicators: Indicators,
    pending: Option<Pending>,
    with_backup: bool,
}

impl Device {
    pub closed spec fn view(&self) -> State {
        State {
            mode: self.mode,
            name: self.file_name@,
            buffer: self.buf@,
            file_pos: self.file_pos as nat,
            lamps: self.indicators@,
            pending: self.pending,
            with_backup: self.with_backup,
        }
    }

    /// A device at rest with a buffer of the usual capacity. A record is
    /// overwritten without a copy being kept.
    pub fn new() -> (device: Self)
        ensures
            device@.wf(),
            device@ == (State {
                mode: Mode::Ready,
                name: Seq::empty(),
                buffer: Contents { bytes: Seq::empty(), capacity: BUFFER_SIZE as nat, cursor: 0 },
                file_pos: 0,
                lamps: Lamps::dark(),
                pending: None,
                with_backup: false,
            }),
    {
        Device {
            mode: Mode::Ready,
            file_name: FileName::new(),
            buf: Buffer::new(),
            file_pos: 0,
            indicators: Indicators::new(),
            pending: None,
            with_backup: false,
        }
    }

    /// A device at rest with a buffer of `capacity` bytes, which must be a
    /// whole number of words.
    pub fn with_capacity(capacity: usize, with_backup: bool) -> (device: Self)
        requires
            2 <= capacity <= BUFFER_SIZE,
            capacity % 2 == 0,
        ensures
            device@.wf(),
            device@ == (State {
                mode: Mode::Ready,
                name: Seq::empty(),
                buffer: Contents { bytes: Seq::empty(), capacity: capacity as nat, cursor: 0 },
                file_pos: 0,
                lamps: Lamps::dark(),
                pending: None,
                with_backup,
            }),
    {
        Device {
            mode: Mode::Ready,
            file_name: FileName::new(),
            buf: Buffer::with_capacity(capacity),
            file_pos: 0,
            indicators: Indicators::new(),
            pending: None,
            with_backup,
        }
    }

    pub fn mode(&self) -> (mode: Mode)
        ensures
            mode == self@.mode,
    {
        self.mode
    }

    /// Whether a call into the record store is out.
    pub fn is_pending(&self) -> (pending: bool)
        ensures
            pending == self@.pending is Some,
    {
        self.pending.is_some()
    }

    pub fn indicators(&self) -> (indicators: &Indicators)
        ensures
            indicators@ == self@.lamps,
    {
        &self.indicators
    }

    pub fn file_name(&self) -> (name: &FileName)
        ensures
            name@ == self@.name,
    {
        &self.file_name
    }

    /// The number of bytes in the buffer.
    pub fn buffered(&self) -> (len: usize)
        ensures
            len == self@.buffer.bytes.len(),
    {
        self.buf.len()
    }

    /// Takes one event from the bus.
    pub fn execute(&mut self, action: input::Action) -> (step: Step)
        requires
            old(self)@.wf(),
            old(self)@.pending is None,
        ensures
            (final(self)@, step@) == old(self)@.execute(action),
            final(self)@.wf(),
            step is Storage <==> final(self)@.pending is Some,
    {
        match action {
            input::Action::Reset => Step::Reply(self.handle_reset()),
            input::Action::Stop => self.handle_stop(),
            input::Action::Data(payload) => self.handle_data(payload),
        }
    }

    /// Takes the outcome of the call that is out and gives the reply to the
    /// event that caused it.
    pub fn complete(&mut self, outcome: Result<Vec<u8>, AppError>) -> (frame: output::Frame)
        requires
            old(self)@.wf(),
            old(self)@.pending is Some,
        ensures
            (final(self)@, frame) == old(self)@.complete(answer_of(outcome)),
            final(self)@.wf(),
            final(self)@.pending is None,
    {
        let pending = match self.pending {
            Some(pending) => pending,
            None => Pending::CheckStatus,
        };
        self.pending = None;
        match outcome {
            Err(error) => match pending {
                Pending::CheckStatus => self.handle_error(AppError::SdmmcDetached.opcode()),
                _ => self.handle_error(error.opcode()),
            },
            Ok(bytes) => match pending {
                Pending::CheckStatus => output::Frame::Ack,
                Pending::OpenRead => {
                    let taken = self.buf.refill(bytes);
                    self.file_pos = taken as u32;
                    self.mode = Mode::Read;
                    self.indicators.read_on();
                    output::Frame::Ack
                },
                Pending::OpenWrite => {
                    self.buf.clear();
                    self.mode = Mode::Write;
                    self.indicators.write_on();
                    output::Frame::Ack
                },
                Pending::Fetch => {
                    let room = u32::MAX - self.file_pos;
                    let incoming = if bytes.len() <= self.buf.capacity() {
                        bytes.len()
                    } else {
                        self.buf.capacity()
                    };
                    if incoming > room as usize {
                        self.handle_error(AppError::SdMmcFile(FileError::InvalidOffset).opcode())
                    } else {
                        let taken = self.buf.refill(bytes);
                        self.file_pos = self.file_pos + taken as u32;
                        self.handle_send_buf_chunk()
                    }
                },
                Pending::Flush => {
                    self.buf.clear();
                    output::Frame::Ack
                },
                Pending::Stop => self.handle_reset(),
            },
        }
    }

    fn handle_reset(&mut self) -> (frame: output::Frame)
        requires
            old(self)@.reset().wf(),
        ensures
            final(self)@ == old(self)@.reset(),
            final(self)@.wf(),
            frame == output::Frame::Ack,
    {
        self.buf.clear();
        self.file_pos = 0;
        self.mode = Mode::Ready;
        self.pending = None;
        self.indicators.system_error_off();
        self.indicators.write_off();
        self.indicators.read_off();
        output::Frame::Ack
    }

    fn handle_stop(&mut self) -> (step: Step)
        requires
            old(self)@.wf(),
            old(self)@.pending is None,
        ensures
            (final(self)@, step@) == old(self)@.execute(input::Action::Stop),
            final(self)@.wf(),
            step is Storage <==> final(self)@.pending is Some,
    {
        if matches!(self.mode, Mode::Write) && self.buf.len() > 0 {
            self.pending = Some(Pending::Stop);
            Step::Storage(
                Request::Append { name: self.file_name.duplicate(), data: self.buf.contents() },
            )
        } else {
            Step::Reply(self.handle_reset())
        }
    }

    fn handle_data(&mut self, payload: u16) -> (step: Step)
        requires
            old(self)@.wf(),
            old(self)@.pending is None,
        ensures
            (final(self)@, step@) == old(self)@.execute(input::Action::Data(payload)),
            final(self)@.wf(),
            step is Storage <==> final(self)@.pending is Some,
    {
        let frame = self.mode.decode(input::Action::Data(payload));
        match self.mode {
            Mode::Ready => match frame {
                InputFrame::CheckStatus => {
                    self.pending = Some(Pending::CheckStatus);
                    Step::Storage(Request::Probe)
                },
                InputFrame::Address(address) => {
                    proof {
                        lemma_name_of_address(address);
                    }
                    self.mode = Mode::Address;
                    self.file_name = FileName::from(address);
                    Step::Reply(output::Frame::Ack)
                },
                _ => Step::Reply(self.handle_error(AppError::UnhandledReadyCommand.opcode())),
            },
            Mode::Address => match frame {
                InputFrame::Read => {
                    self.pending = Some(Pending::OpenRead);
                    Step::Storage(
                        Request::Fetch {
                            name: self.file_name.duplicate(),
                            offset: 0,
                            len: self.buf.capacity(),
                        },
                    )
                },
                InputFrame::Write => {
                    self.pending = Some(Pending::OpenWrite);
                    Step::Storage(
                        Request::Remove {
                            name: self.file_name.duplicate(),
                            backup: self.with_backup,
                        },
                    )
                },
                _ => Step::Reply(self.handle_error(AppError::UnhandledAddressCommand.opcode())),
            },
            Mode::Read => {
                if self.buf.is_exhausted() {
                    self.pending = Some(Pending::Fetch);
                    Step::Storage(
                        Request::Fetch {
                            name: self.file_name.duplicate(),
                            offset: self.file_pos,
                            len: self.buf.capacity(),
                        },
                    )
                } else {
                    Step::Reply(self.handle_send_buf_chunk())
                }
            },
            Mode::Write => {
                self.buf.push_word(payload);
                if self.buf.is_full() {
                    self.pending = Some(Pending::Flush);
                    Step::Storage(
                        Request::Append {
                            name: self.file_name.duplicate(),
                            data: self.buf.contents(),
                        },
                    )
                } else {
                    Step::Reply(output::Frame::Ack)
                }
            },
            Mode::Error(opcode) => Step::Reply(output::Frame::Error(opcode)),
        }
    }

    fn handle_send_buf_chunk(&mut self) -> (frame: output::Frame)
        requires
            old(self)@.wf(),
        ensures
            final(self)@ == (State {
                pending: old(self)@.pending,
                ..old(self)@.send_word().0
            }),
            frame == old(self)@.send_word().1,
            final(self)@.buffer.wf(),
    {
        let payload = self.buf.pop_word();
        output::Frame::Data(payload)
    }

    fn handle_error(&mut self, opcode: u16) -> (frame: output::Frame)
        ensures
            (final(self)@, frame) == old(self)@.fail(opcode),
    {
        self.mode = Mode::Error(opcode);
        self.pending = None;
        self.indicators.system_error_on();
        output::Frame::Error(opcode)
    }
}

} // verus!
