//! The lines driven by the host: where they arrive, and what they mean.

use vstd::prelude::*;

verus! {

/// One event on the bus, as the transport hands it to the device.
#[derive(Clone, Copy, Debug, PartialEq, Eq)]
pub enum Action {
    Reset,
    Stop,
    Data(u16),
}

/// What a payload word means while the device expects a command.
#[derive(Clone, Copy, Debug, PartialEq, Eq)]
pub enum Frame {
    CheckStatus,
    Address(u16),
    Write,
    Read,
    Data(u16),
}

impl Frame {
    /// Words 0, 1 and 2 are the three commands; a word with both low bits
    /// set selects the record whose number is in its six high bits; any
    /// other word is plain data.
    pub open spec fn spec_from(payload: u16) -> Frame {
        if payload == 0x0000 {
            Frame::CheckStatus
        } else if payload == 0x0001 {
            Frame::Write
        } else if payload == 0x0002 {
            Frame::Read
        } else if payload & 0x0003 == 0x0003 {
            Frame::Address(payload >> 10)
        } else {
            Frame::Data(payload)
        }
    }

    pub fn from(payload: u16) -> (frame: Self)
        ensures
            frame == Self::spec_from(payload),
    {
        if payload == 0x0000 {
            Frame::CheckStatus
        } else if payload == 0x0001 {
            Frame::Write
        } else if payload == 0x0002 {
            Frame::Read
        } else if payload & 0x0003 == 0x0003 {
            Frame::Address(payload >> 10)
        } else {
            Frame::Data(payload)
        }
    }
}

/// The word that selects record `address`: the number in the six high bits,
/// both low bits set.
pub open spec fn select_word(address: u16) -> u16 {
    (address << 10) | 0x0003
}

proof fn lemma_address_bits(payload: u16, address: u16)
    by (bit_vector)
    ensures
        payload >> 10 < 64,
        address < 64 ==> ((address << 10) | 0x0003u16) & 0x0003 == 0x0003 && ((address << 10)
            | 0x0003u16) >> 10 == address && ((address << 10) | 0x0003u16) > 2,
{
}

/// A selected record number has six bits, and every number of six bits is
/// selected by its word.
pub proof fn lemma_address_frame(payload: u16, address: u16)
    ensures
        Frame::spec_from(payload) is Address ==> Frame::spec_from(payload)->Address_0 < 64,
        address < 64 ==> Frame::spec_from(select_word(address)) == Frame::Address(address),
{
    lemma_address_bits(payload, address);
}

/// The host's lines as separate values.
#[derive(Clone, Copy, Debug, PartialEq, Eq)]
pub struct Input {
    pub data: u16,
    pub rst: bool,
    pub ctrli_0: bool,
    pub ctrli_1: bool,
    pub dtei: bool,
}

/// A command as told by the reset line and the payload.
#[derive(Clone, Copy, Debug, PartialEq, Eq)]
pub enum Command {
    CheckStatus,
    Reset,
    Write,
    Read,
    Address(u16),
}

impl Command {
    /// The reset line wins over the payload. Without it the payload names
    /// the command as it does in a frame: words 0, 1 and 2 are the status
    /// check, the write and the read; a word with both low bits set selects
    /// the record whose number is in its six high bits; any other word names
    /// no command.
    pub open spec fn spec_from(value: Input) -> Option<Command> {
        if value.rst {
            Some(Command::Reset)
        } else {
            match Frame::spec_from(value.data) {
                Frame::CheckStatus => Some(Command::CheckStatus),
                Frame::Write => Some(Command::Write),
                Frame::Read => Some(Command::Read),
                Frame::Address(address) => Some(Command::Address(address)),
                Frame::Data(_) => None,
            }
        }
    }

    pub fn from(value: Input) -> (command: Option<Self>)
        ensures
            command == Self::spec_from(value),
    {
        if value.rst {
            Some(Command::Reset)
        } else if value.data == 0x0000 {
            Some(Command::CheckStatus)
        } else if value.data == 0x0001 {
            Some(Command::Write)
        } else if value.data == 0x0002 {
            Some(Command::Read)
        } else if value.data & 0x0003 == 0x0003 {
            Some(Command::Address(value.data >> 10))
        } else {
            None
        }
    }
}

/// Pin `pin` of `port`, moved to bit `line`.
pub open spec fn tap(port: u16, pin: u16, line: u16) -> u16 {
    ((port >> pin) & 1) << line
}

/// Whether pin `pin` of `port` is high.
pub open spec fn level(port: u16, pin: u16) -> bool {
    (port >> pin) & 1 == 1
}

/// The levels of the sixteen payload lines, gathered from the input
/// registers of ports B, D and E: line by line, the pin it arrives on.
pub open spec fn payload_levels(pb: u16, pd: u16, pe: u16) -> u16 {
    tap(pb, 7, 0) | tap(pe, 1, 1) | tap(pe, 0, 2) | tap(pe, 2, 3) | tap(pe, 3, 4) | tap(pe, 5, 5)
        | tap(pe, 4, 6) | tap(pe, 6, 7) | tap(pb, 4, 8) | tap(pd, 6, 9) | tap(pd, 5, 10) | tap(
        pd,
        7,
        11,
    ) | tap(pd, 4, 12) | tap(pd, 1, 13) | tap(pd, 3, 14) | tap(pd, 0, 15)
}

/// The level of CTRLI_0, on port D pin 2.
pub open spec fn ctrli_0_level(pd: u16) -> bool {
    level(pd, 2)
}

/// The level of CTRLI_1, on port B pin 8.
pub open spec fn ctrli_1_level(pb: u16) -> bool {
    level(pb, 8)
}

/// The level of RSTI, on port B pin 9.
pub open spec fn rsti_level(pb: u16) -> bool {
    level(pb, 9)
}

/// The level of DTEI, on port B pin 14.
pub open spec fn dtei_level(pb: u16) -> bool {
    level(pb, 14)
}

/// The input registers of ports B, D and E, sampled at the latch edge.
#[derive(Clone, Copy, Debug, PartialEq, Eq)]
pub struct Bus {
    pub gpiob: u16,
    pub gpiod: u16,
    pub gpioe: u16,
}

proof fn lemma_read(pb: u16, pd: u16, pe: u16)
    by (bit_vector)
    ensures
        (pb & (1u16 << 9) == 0) == !((pb >> 9) & 1 == 1),
        (pb & (1u16 << 14) == 0) == !((pb >> 14) & 1 == 1),
        (((pb >> 7) & 1) | (pe & (1u16 << 1)) | ((pe & 1) << 2) | ((pe & (1u16 << 2)) << 1) | ((pe & (
            1u16 << 3)) << 1) | (pe & (1u16 << 5)) | ((pe & (1u16 << 4)) << 2) | ((pe & (1u16 << 6))
            << 1) | ((pb & (1u16 << 4)) << 4) | ((pd & (1u16 << 6)) << 3) | ((pd & (1u16 << 5)) << 5)
            | ((pd & (1u16 << 7)) << 4) | ((pd & (1u16 << 4)) << 8) | ((pd & (1u16 << 1)) << 12) | ((pd
            & (1u16 << 3)) << 11) | ((pd & 1) << 15)) ^ 0xFFFFu16 == !((((pb >> 7) & 1) << 0) | (((pe
            >> 1) & 1) << 1) | (((pe >> 0) & 1) << 2) | (((pe >> 2) & 1) << 3) | (((pe >> 3) & 1) << 4)
            | (((pe >> 5) & 1) << 5) | (((pe >> 4) & 1) << 6) | (((pe >> 6) & 1) << 7) | (((pb >> 4)
            & 1) << 8) | (((pd >> 6) & 1) << 9) | (((pd >> 5) & 1) << 10) | (((pd >> 7) & 1) << 11)
            | (((pd >> 4) & 1) << 12) | (((pd >> 1) & 1) << 13) | (((pd >> 3) & 1) << 14) | (((pd >> 0)
            & 1) << 15)),
{
}

impl Bus {
    /// The event that the sampled levels spell. A line is asserted when it
    /// is low: a low RSTI is a reset, else a low DTEI is a stop, else the
    /// payload is the complement of the levels of the payload lines.
    pub open spec fn spec_read(self) -> Action {
        if !rsti_level(self.gpiob) {
            Action::Reset
        } else if !dtei_level(self.gpiob) {
            Action::Stop
        } else {
            Action::Data(!payload_levels(self.gpiob, self.gpiod, self.gpioe))
        }
    }

    pub fn new(gpiob: u16, gpiod: u16, gpioe: u16) -> (bus: Self)
        ensures
            bus == (Bus { gpiob, gpiod, gpioe }),
    {
        Bus { gpiob, gpiod, gpioe }
    }

    /// Decodes the sampled levels.
    pub fn read(&self) -> (action: Action)
        ensures
            action == self.spec_read(),
    {
        let pb = self.gpiob;
        let pd = self.gpiod;
        let pe = self.gpioe;
        proof {
            lemma_read(pb, pd, pe);
        }
        let rsti = pb & (1u16 << 9) == 0;
        let dtei = pb & (1u16 << 14) == 0;

        if rsti {
            Action::Reset
        } else if dtei {
            Action::Stop
        } else {
            let mut payload = (pb >> 7) & 1;
            payload |= pe & (1u16 << 1);
            payload |= (pe & 1) << 2;
            payload |= (pe & (1u16 << 2)) << 1;
            payload |= (pe & (1u16 << 3)) << 1;
            payload |= pe & (1u16 << 5);
            payload |= (pe & (1u16 << 4)) << 2;
            payload |= (pe & (1u16 << 6)) << 1;
            payload |= (pb & (1u16 << 4)) << 4;
            payload |= (pd & (1u16 << 6)) << 3;
            payload |= (pd & (1u16 << 5)) << 5;
            payload |= (pd & (1u16 << 7)) << 4;
            payload |= (pd & (1u16 << 4)) << 8;
            payload |= (pd & (1u16 << 1)) << 12;
            payload |= (pd & (1u16 << 3)) << 11;
            payload |= (pd & 1) << 15;
            payload ^= u16::MAX;
            Action::Data(payload)
        }
    }
}

/// A source of line values.
pub trait Read {
    /// The lines as this source presents them.
    spec fn spec_read(&self) -> Input;

    fn read(&self) -> (input: Input)
        ensures
            input == self.spec_read(),
    ;
}

/// The input registers of ports B, D and E, read as they stand: a high pin
/// is a set line.
#[derive(Clone, Copy, Debug, PartialEq, Eq)]
pub struct InputBus {
    pub gpiob: u16,
    pub gpiod: u16,
    pub gpioe: u16,
}

/// The same registers on a bus where a low pin is a set line.
#[derive(Clone, Copy, Debug, PartialEq, Eq)]
pub struct InvertedInputBus(pub InputBus);

proof fn lemma_copy_bit(from: u16, src: u16, dst: u16)
    by (bit_vector)
    requires
        src < 16,
        dst < 16,
    ensures
        src > dst ==> (from & (1u16 << src)) >> ((src - dst) as u16) == ((from >> src) & 1) << dst,
        src <= dst ==> (from & (1u16 << src)) << ((dst - src) as u16) == ((from >> src) & 1) << dst,
{
}

fn copy_bit(from: u16, src: u16, dst: u16) -> (out: u16)
    requires
        src < 16,
        dst < 16,
    ensures
        out == tap(from, src, dst),
{
    proof {
        lemma_copy_bit(from, src, dst);
    }
    let masked = from & (1u16 << src);
    if src > dst {
        masked >> (src - dst)
    } else {
        masked << (dst - src)
    }
}

fn bit_is_set(from: u16, bit: u16) -> (set: bool)
    requires
        bit < 16,
    ensures
        set == level(from, bit),
{
    (from >> bit) & 1 == 1
}

impl Read for InputBus {
    /// Each line has the level of its pin.
    open spec fn spec_read(&self) -> Input {
        Input {
            data: payload_levels(self.gpiob, self.gpiod, self.gpioe),
            rst: rsti_level(self.gpiob),
            ctrli_0: ctrli_0_level(self.gpiod),
            ctrli_1: ctrli_1_level(self.gpiob),
            dtei: dtei_level(self.gpiob),
        }
    }

    fn read(&self) -> (input: Input) {
        let pb = self.gpiob;
        let pd = self.gpiod;
        let pe = self.gpioe;

        let data = copy_bit(pb, 7, 0) | copy_bit(pe, 1, 1) | copy_bit(pe, 0, 2) | copy_bit(pe, 2, 3)
            | copy_bit(pe, 3, 4) | copy_bit(pe, 5, 5) | copy_bit(pe, 4, 6) | copy_bit(pe, 6, 7)
            | copy_bit(pb, 4, 8) | copy_bit(pd, 6, 9) | copy_bit(pd, 5, 10) | copy_bit(pd, 7, 11)
            | copy_bit(pd, 4, 12) | copy_bit(pd, 1, 13) | copy_bit(pd, 3, 14) | copy_bit(pd, 0, 15);

        let rst = bit_is_set(pb, 9);
        let ctrli_0 = bit_is_set(pd, 2);
        let ctrli_1 = bit_is_set(pb, 8);
        let dtei = bit_is_set(pb, 14);

        Input { data, rst, ctrli_0, ctrli_1, dtei }
    }
}

impl InvertedInputBus {
    /// Wraps the registers of a bus on which low means set.
    pub fn from(value: InputBus) -> (bus: Self)
        ensures
            bus.0 == value,
    {
        InvertedInputBus(value)
    }
}

impl Read for InvertedInputBus {
    /// Each line is the complement of the level of its pin.
    open spec fn spec_read(&self) -> Input {
        Input {
            data: !payload_levels(self.0.gpiob, self.0.gpiod, self.0.gpioe),
            rst: !rsti_level(self.0.gpiob),
            ctrli_0: !ctrli_0_level(self.0.gpiod),
            ctrli_1: !ctrli_1_level(self.0.gpiob),
            dtei: !dtei_level(self.0.gpiob),
        }
    }

    fn read(&self) -> (input: Input) {
        let input = self.0.read();

        Input {
            data: !input.data,
            rst: !input.rst,
            ctrli_0: !input.ctrli_0,
            ctrli_1: !input.ctrli_1,
            dtei: !input.dtei,
        }
    }
}

/// Both readings of the bus agree on what the host sent: the event decoded
/// from the sampled levels carries the payload of the inverted reading, is a
/// reset exactly when its reset line is set, and is a stop exactly when its
/// end line is set and its reset line is not.
pub proof fn lemma_readings_agree(pb: u16, pd: u16, pe: u16)
    ensures
        ({
            let action = (Bus { gpiob: pb, gpiod: pd, gpioe: pe }).spec_read();
            let input = InvertedInputBus(InputBus { gpiob: pb, gpiod: pd, gpioe: pe }).spec_read();
            &&& (action is Reset) == input.rst
            &&& (action is Stop) == (input.dtei && !input.rst)
            &&& (action is Data) ==> action == Action::Data(input.data)
        }),
{
}

} // verus!
