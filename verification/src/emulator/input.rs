//! What the stand-in host reads from the bus, and from which pins.

use vstd::prelude::*;

verus! {

/// What the device has put on the bus, as the stand-in host sees it.
#[derive(Clone, Copy, Debug, PartialEq, Eq)]
pub enum Frame {
    Data(u16),
    Error(u16),
    Sete,
    Reset,
    End,
}

/// The input registers of the five ports, one bit per pin. Once the levels
/// are reversed, a one is an asserted line.
///
/// Payload lines 0 to 6 sit on port D pins 0 to 6, line 7 on port E pin 11,
/// line 8 on port A pin 8, lines 9 and 10 on port C pins 6 and 7, lines 11
/// to 15 on port D pins 11 to 15. DTEO is port E pin 12, SETE port E pin
/// 13, RSTE port E pin 14, ERRO port B pin 3.
#[derive(Clone, Copy, Debug, PartialEq, Eq)]
pub struct DataMask {
    pub gpioa: u32,
    pub gpiob: u32,
    pub gpioc: u32,
    pub gpiod: u32,
    pub gpioe: u32,
}

/// Pin `pin` of `port`, moved to bit `line`.
pub open spec fn line_of(port: u32, pin: u32, line: u32) -> u32 {
    ((port >> pin) & 1) << line
}

/// Whether pin `pin` of `port` is one.
pub open spec fn pin_set(port: u32, pin: u32) -> bool {
    (port >> pin) & 1 == 1
}

impl DataMask {
    /// The payload, line by line.
    pub open spec fn spec_data(self) -> u16 {
        (line_of(self.gpiod, 0, 0) | line_of(self.gpiod, 1, 1) | line_of(self.gpiod, 2, 2)
            | line_of(self.gpiod, 3, 3) | line_of(self.gpiod, 4, 4) | line_of(self.gpiod, 5, 5)
            | line_of(self.gpiod, 6, 6) | line_of(self.gpioe, 11, 7) | line_of(self.gpioa, 8, 8)
            | line_of(self.gpioc, 6, 9) | line_of(self.gpioc, 7, 10) | line_of(self.gpiod, 11, 11)
            | line_of(self.gpiod, 12, 12) | line_of(self.gpiod, 13, 13) | line_of(
            self.gpiod,
            14,
            14,
        ) | line_of(self.gpiod, 15, 15)) as u16
    }

    /// The frame that the asserted lines spell: a control line wins over the
    /// payload, RSTE over SETE over DTEO over ERRO.
    pub open spec fn spec_frame(self) -> Frame {
        if pin_set(self.gpioe, 14) {
            Frame::Reset
        } else if pin_set(self.gpioe, 13) {
            Frame::Sete
        } else if pin_set(self.gpioe, 12) {
            Frame::End
        } else if pin_set(self.gpiob, 3) {
            Frame::Error(self.spec_data())
        } else {
            Frame::Data(self.spec_data())
        }
    }

    /// Turns electrical levels into asserted lines: an asserted line is low
    /// on this bus.
    pub fn reverse_bits(self) -> (mask: Self)
        ensures
            mask.gpioa == !self.gpioa,
            mask.gpiob == !self.gpiob,
            mask.gpioc == !self.gpioc,
            mask.gpiod == !self.gpiod,
            mask.gpioe == !self.gpioe,
    {
        proof {
            lemma_invert(self.gpioa);
            lemma_invert(self.gpiob);
            lemma_invert(self.gpioc);
            lemma_invert(self.gpiod);
            lemma_invert(self.gpioe);
        }
        DataMask {
            gpioa: self.gpioa ^ u32::MAX,
            gpiob: self.gpiob ^ u32::MAX,
            gpioc: self.gpioc ^ u32::MAX,
            gpiod: self.gpiod ^ u32::MAX,
            gpioe: self.gpioe ^ u32::MAX,
        }
    }

    /// Whether DTEO is asserted.
    pub fn dteo(&self) -> (set: bool)
        ensures
            set == pin_set(self.gpioe, 12),
    {
        (self.gpioe >> 12) & 1 == 1
    }

    /// Whether SETE is asserted.
    pub fn sete(&self) -> (set: bool)
        ensures
            set == pin_set(self.gpioe, 13),
    {
        (self.gpioe >> 13) & 1 == 1
    }

    /// Whether RSTE is asserted.
    pub fn rste(&self) -> (set: bool)
        ensures
            set == pin_set(self.gpioe, 14),
    {
        (self.gpioe >> 14) & 1 == 1
    }

    /// Whether ERRO is asserted.
    pub fn erro(&self) -> (set: bool)
        ensures
            set == pin_set(self.gpiob, 3),
    {
        (self.gpiob >> 3) & 1 == 1
    }

    /// The sixteen payload lines.
    pub fn data(&self) -> (word: u16)
        ensures
            word == self.spec_data(),
    {
        let mut data = self.gpiod & 0b1111111;
        data |= (self.gpioe & (1u32 << 11)) >> 4;
        data |= self.gpioa & (1u32 << 8);
        data |= (self.gpioc & (0b11u32 << 6)) << 3;
        data |= self.gpiod & (0b11111u32 << 11);
        proof {
            lemma_data(self.gpioa, self.gpioc, self.gpiod, self.gpioe);
        }
        #[verifier::truncate]
        (data as u16)
    }

    /// Decodes the asserted lines.
    pub fn frame(self) -> (frame: Frame)
        ensures
            frame == self.spec_frame(),
    {
        if self.rste() {
            Frame::Reset
        } else if self.sete() {
            Frame::Sete
        } else if self.dteo() {
            Frame::End
        } else if self.erro() {
            Frame::Error(self.data())
        } else {
            Frame::Data(self.data())
        }
    }
}

impl Frame {
    /// Decodes the asserted lines of `value`.
    pub fn from(value: DataMask) -> (frame: Self)
        ensures
            frame == value.spec_frame(),
    {
        value.frame()
    }
}

proof fn lemma_invert(x: u32)
    by (bit_vector)
    ensures
        x ^ 0xFFFF_FFFFu32 == !x,
{
}

proof fn lemma_data(a: u32, c: u32, d: u32, e: u32)
    by (bit_vector)
    ensures
        ((d & 0b1111111) | ((e & (1u32 << 11)) >> 4) | (a & (1u32 << 8)) | ((c & (0b11u32 << 6)) << 3)
            | (d & (0b11111u32 << 11))) as u16 == ((((d >> 0) & 1) << 0) | (((d >> 1) & 1) << 1) | (((d
            >> 2) & 1) << 2) | (((d >> 3) & 1) << 3) | (((d >> 4) & 1) << 4) | (((d >> 5) & 1) << 5)
            | (((d >> 6) & 1) << 6) | (((e >> 11) & 1) << 7) | (((a >> 8) & 1) << 8) | (((c >> 6) & 1)
            << 9) | (((c >> 7) & 1) << 10) | (((d >> 11) & 1) << 11) | (((d >> 12) & 1) << 12) | (((d
            >> 13) & 1) << 13) | (((d >> 14) & 1) << 14) | (((d >> 15) & 1) << 15)) as u16,
{
}

} // verus!
