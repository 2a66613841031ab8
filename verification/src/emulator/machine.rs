//! The stand-in host's session: which frame to send next, given what the
//! device last put on the bus.

use vstd::prelude::*;
use crate::emulator::input;
use crate::emulator::output;

verus! {

/// The kind of session to run.
#[derive(Clone, Copy, Debug, PartialEq, Eq)]
pub enum Mode {
    Write,
    Read,
}

/// The frame sent last. `ReadData(n)` and `WriteData(n)` count the data
/// frames sent so far.
#[derive(Clone, Copy, Debug, PartialEq, Eq)]
pub enum State {
    Ready,
    Reset,
    CheckStatus,
    Address,
    Read,
    ReadData(usize),
    Write,
    WriteData(usize),
    Stop,
}

/// The stand-in host. A session writes or reads `transfers` words of the
/// record that follows `last_address`; the words are 0, 1, 2 and so on.
#[derive(Clone, Copy, Debug, PartialEq, Eq)]
pub struct Machine {
    pub state: State,
    pub mode: Mode,
    pub debug: bool,
    pub transfers: usize,
    pub last_received: u16,
    pub last_address: u16,
    pub last_data: u16,
    /// Whether the fault indicator is lit.
    pub fault: bool,
}

/// The sixteen low bits of `n`.
pub open spec fn low_word(n: int) -> u16 {
    (n % 0x10000) as u16
}

/// The word that the `count`-th data frame of a session carries: words are
/// numbered from zero and wrap at sixteen bits.
pub open spec fn word_before(count: usize) -> u16 {
    low_word(count - 1)
}

/// The address after `address`, wrapping at sixteen bits.
pub open spec fn next_address(address: u16) -> u16 {
    low_word(address + 1)
}

impl Machine {
    /// What a reply means to the session: a data frame acknowledges and
    /// carries a word, anything else is a fault.
    pub open spec fn spec_read(received: input::Frame) -> Option<u16> {
        match received {
            input::Frame::Data(payload) => Some(payload),
            _ => None,
        }
    }

    /// The session after one step, and the frame to send, if any. From
    /// `Ready` the session opens with a reset whatever is on the bus; from
    /// any other state it moves only on a data frame, and any other frame
    /// lights the fault indicator and leaves the session where it is. Each
    /// acknowledged command is followed by the next: status check, record
    /// selection, the command that opens the transfer, then one data frame
    /// per word, then a stop. A read goes on only when the word received is
    /// the word expected.
    pub open spec fn spec_step(self, received: input::Frame) -> (Machine, Option<output::Frame>) {
        if !(self.state is Ready) && Self::spec_read(received) is None {
            (Machine { fault: true, ..self }, None)
        } else {
            match self.state {
                State::Ready => (Machine { state: State::Reset, ..self }, Some(output::Frame::Reset)),
                State::Reset => (
                    Machine { state: State::CheckStatus, ..self },
                    Some(output::Frame::CheckStatus),
                ),
                State::CheckStatus => (
                    Machine {
                        state: State::Address,
                        last_address: next_address(self.last_address),
                        ..self
                    },
                    Some(output::Frame::Address(next_address(self.last_address))),
                ),
                State::Address => match self.mode {
                    Mode::Read => (Machine { state: State::Read, ..self }, Some(output::Frame::Read)),
                    Mode::Write => (
                        Machine { state: State::Write, ..self },
                        Some(output::Frame::Write),
                    ),
                },
                State::Read => (
                    Machine { state: State::ReadData(1), ..self },
                    Some(output::Frame::ReadData),
                ),
                State::ReadData(count) => if Self::spec_read(received) != Some(word_before(count)) {
                    (self, None)
                } else if count < self.transfers {
                    (
                        Machine {
                            state: State::ReadData((count + 1) as usize),
                            last_received: word_before(count),
                            ..self
                        },
                        Some(output::Frame::ReadData),
                    )
                } else {
                    (
                        Machine { state: State::Stop, last_received: word_before(count), ..self },
                        Some(output::Frame::Stop),
                    )
                },
                State::Write => (
                    Machine { state: State::WriteData(1), ..self },
                    Some(output::Frame::WriteData(0)),
                ),
                State::WriteData(count) => if count < self.transfers {
                    (
                        Machine { state: State::WriteData((count + 1) as usize), ..self },
                        Some(output::Frame::WriteData(low_word(count as int))),
                    )
                } else {
                    (Machine { state: State::Stop, ..self }, Some(output::Frame::Stop))
                },
                State::Stop => (self, None),
            }
        }
    }

    /// The session as a new run begins: fault indicator off, back in
    /// `Ready`, and already one step ahead.
    pub open spec fn spec_start(self, mode: Mode, debug: bool) -> Machine {
        Machine { state: State::Reset, mode, debug, last_data: 0, fault: false, ..self }
    }

    /// The session ended by hand: at its stop, and pointing before the first
    /// record again.
    pub open spec fn spec_stop(self) -> Machine {
        Machine { state: State::Stop, last_address: 0, last_received: 0, ..self }
    }

    /// A machine at rest that will move `transfers` words per session.
    pub fn new(transfers: usize, debug: bool) -> (machine: Self)
        ensures
            machine == (Machine {
                state: State::Ready,
                mode: Mode::Write,
                debug,
                transfers,
                last_received: 0,
                last_address: 0,
                last_data: 0,
                fault: false,
            }),
    {
        Machine {
            state: State::Ready,
            mode: Mode::Write,
            debug,
            transfers,
            last_received: 0,
            last_address: 0,
            last_data: 0,
            fault: false,
        }
    }

    /// Whether the session has sent its stop.
    pub fn is_completed(&self) -> (done: bool)
        ensures
            done == (self.state is Stop),
    {
        matches!(self.state, State::Stop)
    }

    /// Whether a fault halted the session: no step moves it until a new run
    /// is started or it is stopped by hand.
    pub fn is_halted(&self) -> (halted: bool)
        ensures
            halted == self.fault,
    {
        self.fault
    }

    pub fn set_debug(&mut self, debug: bool)
        ensures
            *final(self) == (Machine { debug, ..*old(self) }),
    {
        self.debug = debug;
    }

    pub fn set_transfers(&mut self, transfers: usize)
        ensures
            *final(self) == (Machine { transfers, ..*old(self) }),
    {
        self.transfers = transfers;
    }

    /// Begins a write session; the frame to send is the opening reset.
    pub fn start_write(&mut self, debug: bool) -> (frame: output::Frame)
        ensures
            *final(self) == old(self).spec_start(Mode::Write, debug),
            frame == output::Frame::Reset,
    {
        self.mode = Mode::Write;
        self.debug = debug;
        self.start()
    }

    /// Begins a read session; the frame to send is the opening reset.
    pub fn start_read(&mut self, debug: bool) -> (frame: output::Frame)
        ensures
            *final(self) == old(self).spec_start(Mode::Read, debug),
            frame == output::Frame::Reset,
    {
        self.mode = Mode::Read;
        self.debug = debug;
        self.start()
    }

    /// Advances the session by one handshake. `received` is what the device
    /// holds on the bus; the result is the frame to send, if the session
    /// moved.
    pub fn step(&mut self, received: input::Frame) -> (frame: Option<output::Frame>)
        ensures
            (*final(self), frame) == old(self).spec_step(received),
    {
        match self.state {
            State::Ready => {
                self.state = State::Reset;
                Some(output::Frame::Reset)
            },
            State::Reset => {
                if self.read(received).is_some() {
                    self.state = State::CheckStatus;
                    Some(output::Frame::CheckStatus)
                } else {
                    None
                }
            },
            State::CheckStatus => {
                if self.read(received).is_some() {
                    self.last_address = if self.last_address == u16::MAX {
                        0
                    } else {
                        self.last_address + 1
                    };
                    self.state = State::Address;
                    Some(output::Frame::Address(self.last_address))
                } else {
                    None
                }
            },
            State::Address => {
                if self.read(received).is_some() {
                    match self.mode {
                        Mode::Read => {
                            self.state = State::Read;
                            Some(output::Frame::Read)
                        },
                        Mode::Write => {
                            self.state = State::Write;
                            Some(output::Frame::Write)
                        },
                    }
                } else {
                    None
                }
            },
            State::Read => {
                if self.read(received).is_some() {
                    self.state = State::ReadData(1);
                    Some(output::Frame::ReadData)
                } else {
                    None
                }
            },
            State::ReadData(count) => {
                if let Some(data) = self.read(received) {
                    if data == word_index(count) {
                        self.last_received = data;
                        if count < self.transfers {
                            self.state = State::ReadData(count + 1);
                            Some(output::Frame::ReadData)
                        } else {
                            self.state = State::Stop;
                            Some(output::Frame::Stop)
                        }
                    } else {
                        None
                    }
                } else {
                    None
                }
            },
            State::Write => {
                if self.read(received).is_some() {
                    self.state = State::WriteData(1);
                    Some(output::Frame::WriteData(0))
                } else {
                    None
                }
            },
            State::WriteData(count) => {
                if self.read(received).is_some() {
                    if count < self.transfers {
                        self.state = State::WriteData(count + 1);
                        Some(output::Frame::WriteData((count % 0x10000) as u16))
                    } else {
                        self.state = State::Stop;
                        Some(output::Frame::Stop)
                    }
                } else {
                    None
                }
            },
            State::Stop => {
                let _ = self.read(received);
                None
            },
        }
    }

    /// Ends the session by hand: the frame to send is a stop, and the next
    /// session starts again at the first record.
    pub fn stop(&mut self) -> (frame: output::Frame)
        ensures
            *final(self) == old(self).spec_stop(),
            frame == output::Frame::Stop,
    {
        self.state = State::Stop;
        self.last_address = 0;
        self.last_received = 0;
        output::Frame::Stop
    }

    /// Takes a reply: the word of a data frame, or nothing and the fault
    /// indicator lit.
    pub fn read(&mut self, received: input::Frame) -> (word: Option<u16>)
        ensures
            word == Self::spec_read(received),
            *final(self) == (Machine { fault: old(self).fault || word is None, ..*old(self) }),
    {
        match received {
            input::Frame::Data(payload) => Some(payload),
            _ => {
                self.fault = true;
                None
            },
        }
    }

    fn start(&mut self) -> (frame: output::Frame)
        ensures
            *final(self) == (Machine {
                state: State::Reset,
                last_data: 0,
                fault: false,
                ..*old(self)
            }),
            frame == output::Frame::Reset,
    {
        self.fault = false;
        self.last_data = 0;
        self.state = State::Reset;
        output::Frame::Reset
    }
}

/// The word carried by the `count`-th data frame.
fn word_index(count: usize) -> (word: u16)
    ensures
        word == word_before(count),
{
    if count % 0x10000 == 0 {
        0xFFFF
    } else {
        (count % 0x10000 - 1) as u16
    }
}

/// The drive mode has no say in what is sent: a machine stepped by hand and
/// one stepped by the device's ready edge send the same frame and reach the
/// same state.
pub proof fn lemma_step_ignores_debug(machine: Machine, debug: bool, received: input::Frame)
    ensures
        (Machine { debug, ..machine }).spec_step(received).1 == machine.spec_step(received).1,
        (Machine { debug, ..machine }).spec_step(received).0 == (Machine {
            debug,
            ..machine.spec_step(received).0
        }),
{
}

/// After any frame but a data frame the fault indicator is lit, nothing is
/// sent and the session has not moved.
pub proof fn lemma_fault_halts(machine: Machine, received: input::Frame)
    requires
        !(machine.state is Ready),
        !(received is Data),
    ensures
        machine.spec_step(received) == (Machine { fault: true, ..machine }, None::<output::Frame>),
{
}

} // verus!
