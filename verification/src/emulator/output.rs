//! What the stand-in host puts on the bus, and on which pins.

use vstd::prelude::*;

verus! {

/// A command or a data word sent towards the device.
#[derive(Clone, Copy, Debug, PartialEq, Eq)]
pub enum Frame {
    Reset,
    CheckStatus,
    Address(u16),
    Write,
    Read,
    WriteData(u16),
    ReadData,
    Stop,
}

/// The pins to assert on each port: a one asserts the line behind the pin.
///
/// Payload lines 0 to 5 sit on port B pins 4 to 9, lines 6 to 10 on port E
/// pins 2 to 6, line 11 on port C pin 13, lines 12 to 14 on port C pins 0, 2
/// and 3, line 15 on port A pin 0. DTEI is port C pin 4, RSTI port C pin 5.
#[derive(Clone, Copy, Debug, PartialEq, Eq)]
pub struct DataMask {
    pub gpioa: u16,
    pub gpiob: u16,
    pub gpioc: u16,
    pub gpioe: u16,
}

/// Bit `line` of `word`, moved to bit `pin`.
pub open spec fn pin_of(word: u16, line: u16, pin: u16) -> u16 {
    ((word >> line) & 1) << pin
}

/// The pins that carry `word` on its sixteen payload lines.
pub open spec fn word_mask(word: u16) -> DataMask {
    DataMask {
        gpioa: pin_of(word, 15, 0),
        gpiob: pin_of(word, 0, 4) | pin_of(word, 1, 5) | pin_of(word, 2, 6) | pin_of(word, 3, 7)
            | pin_of(word, 4, 8) | pin_of(word, 5, 9),
        gpioc: pin_of(word, 11, 13) | pin_of(word, 12, 0) | pin_of(word, 13, 2) | pin_of(
            word,
            14,
            3,
        ),
        gpioe: pin_of(word, 6, 2) | pin_of(word, 7, 3) | pin_of(word, 8, 4) | pin_of(word, 9, 5)
            | pin_of(word, 10, 6),
    }
}

/// The word that puts record `address` on the bus: the address in the six
/// high bits, both low bits set.
pub open spec fn address_word(address: u16) -> u16 {
    ((address & 0x3F) << 10) | 0x0003
}

impl Frame {
    /// The payload that carries this frame. Reset and stop travel on lines
    /// of their own and leave the payload idle.
    pub open spec fn spec_word(self) -> u16 {
        match self {
            Frame::Reset => 0,
            Frame::CheckStatus => 0x0000,
            Frame::Write => 0x0001,
            Frame::Read => 0x0002,
            Frame::Address(address) => address_word(address),
            Frame::WriteData(data) => data,
            Frame::ReadData => 0,
            Frame::Stop => 0,
        }
    }

    /// Whether this frame asserts RSTI.
    pub open spec fn spec_resets(self) -> bool {
        self is Reset
    }

    /// Whether this frame asserts DTEI.
    pub open spec fn spec_stops(self) -> bool {
        self is Stop
    }

    pub fn word(&self) -> (word: u16)
        ensures
            word == self.spec_word(),
    {
        match self {
            Frame::Reset => 0,
            Frame::CheckStatus => 0x0000,
            Frame::Write => 0x0001,
            Frame::Read => 0x0002,
            Frame::Address(address) => ((*address & 0x3F) << 10) | 0x0003,
            Frame::WriteData(data) => *data,
            Frame::ReadData => 0,
            Frame::Stop => 0,
        }
    }
}

proof fn lemma_word_mask(data: u16)
    by (bit_vector)
    ensures
        (data & (1u16 << 15)) >> 15 == ((data >> 15) & 1) << 0,
        (data & (1u16 << 0)) << 4 | (data & (1u16 << 1)) << 4 | (data & (1u16 << 2)) << 4 | (data
            & (1u16 << 3)) << 4 | (data & (1u16 << 4)) << 4 | (data & (1u16 << 5)) << 4 == ((data
            >> 0) & 1) << 4 | ((data >> 1) & 1) << 5 | ((data >> 2) & 1) << 6 | ((data >> 3) & 1)
            << 7 | ((data >> 4) & 1) << 8 | ((data >> 5) & 1) << 9,
        (data & (1u16 << 11)) << 2 | (data & (1u16 << 12)) >> 12 | (data & (1u16 << 13)) >> 11 | (
        data & (1u16 << 14)) >> 11 == ((data >> 11) & 1) << 13 | ((data >> 12) & 1) << 0 | ((data
            >> 13) & 1) << 2 | ((data >> 14) & 1) << 3,
        (data & (1u16 << 6)) >> 4 | (data & (1u16 << 7)) >> 4 | (data & (1u16 << 8)) >> 4 | (data
            & (1u16 << 9)) >> 4 | (data & (1u16 << 10)) >> 4 == ((data >> 6) & 1) << 2 | ((data
            >> 7) & 1) << 3 | ((data >> 8) & 1) << 4 | ((data >> 9) & 1) << 5 | ((data >> 10) & 1)
            << 6,
{
}

proof fn lemma_invert(x: u16)
    by (bit_vector)
    ensures
        x ^ 0xFFFFu16 == !x,
        0u16 | (1u16 << 4) == 16,
        0u16 | (1u16 << 5) == 32,
{
}

impl DataMask {
    /// No line asserted.
    pub fn new() -> (mask: Self)
        ensures
            mask == (DataMask { gpioa: 0, gpiob: 0, gpioc: 0, gpioe: 0 }),
    {
        DataMask { gpioa: 0, gpiob: 0, gpioc: 0, gpioe: 0 }
    }

    /// The pins for the payload `data`.
    pub fn of_word(data: u16) -> (mask: Self)
        ensures
            mask == word_mask(data),
    {
        let mut gpiob = (data & (1u16 << 0)) << 4;
        gpiob |= (data & (1u16 << 1)) << 4;
        gpiob |= (data & (1u16 << 2)) << 4;
        gpiob |= (data & (1u16 << 3)) << 4;
        gpiob |= (data & (1u16 << 4)) << 4;
        gpiob |= (data & (1u16 << 5)) << 4;

        let mut gpioc = (data & (1u16 << 11)) << 2;
        gpioc |= (data & (1u16 << 12)) >> 12;
        gpioc |= (data & (1u16 << 13)) >> 11;
        gpioc |= (data & (1u16 << 14)) >> 11;

        let mut gpioe = (data & (1u16 << 6)) >> 4;
        gpioe |= (data & (1u16 << 7)) >> 4;
        gpioe |= (data & (1u16 << 8)) >> 4;
        gpioe |= (data & (1u16 << 9)) >> 4;
        gpioe |= (data & (1u16 << 10)) >> 4;

        proof {
            lemma_word_mask(data);
        }
        DataMask { gpioa: (data & (1u16 << 15)) >> 15, gpiob, gpioc, gpioe }
    }

    /// The asserted pins of a frame: the payload's pins, with RSTI for a
    /// reset and DTEI for a stop.
    pub open spec fn spec_from(frame: Frame) -> DataMask {
        match frame {
            Frame::Reset => DataMask { gpioa: 0, gpiob: 0, gpioc: 1u16 << 5, gpioe: 0 },
            Frame::Stop => DataMask { gpioa: 0, gpiob: 0, gpioc: 1u16 << 4, gpioe: 0 },
            _ => word_mask(frame.spec_word()),
        }
    }

    pub fn from(value: Frame) -> (mask: Self)
        ensures
            mask == Self::spec_from(value),
    {
        match value {
            Frame::Reset => DataMask { gpioa: 0, gpiob: 0, gpioc: 1u16 << 5, gpioe: 0 },
            Frame::Stop => DataMask { gpioa: 0, gpiob: 0, gpioc: 1u16 << 4, gpioe: 0 },
            _ => DataMask::of_word(value.word()),
        }
    }

    /// Turns asserted pins into electrical levels and back: an asserted line
    /// is low on this bus.
    pub fn reverse_bits(self) -> (mask: Self)
        ensures
            mask.gpioa == !self.gpioa,
            mask.gpiob == !self.gpiob,
            mask.gpioc == !self.gpioc,
            mask.gpioe == !self.gpioe,
    {
        proof {
            lemma_invert(self.gpioa);
            lemma_invert(self.gpiob);
            lemma_invert(self.gpioc);
            lemma_invert(self.gpioe);
        }
        DataMask {
            gpioa: self.gpioa ^ u16::MAX,
            gpiob: self.gpiob ^ u16::MAX,
            gpioc: self.gpioc ^ u16::MAX,
            gpioe: self.gpioe ^ u16::MAX,
        }
    }
}

/// The pins that the stand-in host owns on each port. A write changes these
/// and no others: see `port_write`.
pub const GPIOA_PINS: u16 = 0b0000000011101001;
pub const GPIOB_PINS: u16 = 0b0000001111110000;
pub const GPIOC_PINS: u16 = 0b0010000000111101;
pub const GPIOE_PINS: u16 = 0b0000000001111100;

impl Default for DataMask {
    /// No line asserted.
    fn default() -> (mask: Self)
        ensures
            mask == (DataMask { gpioa: 0, gpiob: 0, gpioc: 0, gpioe: 0 }),
    {
        DataMask::new()
    }
}

} // verus!
