//! Six lamps that show a number in binary.

use vstd::prelude::*;
use crate::led::Led;

verus! {

/// Six lamps; lamp `n` stands for bit `n - 1`.
#[derive(Clone, Copy, Debug, PartialEq, Eq)]
pub struct Display {
    pin1: Led,
    pin2: Led,
    pin3: Led,
    pin4: Led,
    pin5: Led,
    pin6: Led,
}

/// Whether bit `index` of `value` is one.
pub open spec fn bit(value: u8, index: u8) -> bool {
    (value >> index) & 1 == 1
}

proof fn lemma_bit(value: u8, index: u8)
    by (bit_vector)
    requires
        index < 8,
    ensures
        (value & (1u8 << index) != 0) == ((value >> index) & 1 == 1),
{
}

impl Display {
    /// The six lamps, lowest bit first.
    pub closed spec fn view(&self) -> Seq<bool> {
        seq![self.pin1@, self.pin2@, self.pin3@, self.pin4@, self.pin5@, self.pin6@]
    }

    /// Six lamps, all off.
    pub fn new() -> (display: Self)
        ensures
            display@ == Seq::new(6, |i: int| false),
    {
        let display = Display {
            pin1: Led::new(),
            pin2: Led::new(),
            pin3: Led::new(),
            pin4: Led::new(),
            pin5: Led::new(),
            pin6: Led::new(),
        };
        assert(display@ =~= Seq::new(6, |i: int| false));
        display
    }

    /// Shows the six low bits of `value`: a lamp is lit exactly when its bit
    /// is one.
    pub fn display(&mut self, value: u8)
        ensures
            final(self)@ == Seq::new(6, |i: int| bit(value, i as u8)),
    {
        write_bit(&mut self.pin1, value, 0);
        write_bit(&mut self.pin2, value, 1);
        write_bit(&mut self.pin3, value, 2);
        write_bit(&mut self.pin4, value, 3);
        write_bit(&mut self.pin5, value, 4);
        write_bit(&mut self.pin6, value, 5);
        assert(self@ =~= Seq::new(6, |i: int| bit(value, i as u8)));
    }

    /// Whether lamp `index`, counted from zero, is lit.
    pub fn is_on(&self, index: usize) -> (lit: bool)
        requires
            index < 6,
        ensures
            lit == self@[index as int],
    {
        if index == 0 {
            self.pin1.is_on()
        } else if index == 1 {
            self.pin2.is_on()
        } else if index == 2 {
            self.pin3.is_on()
        } else if index == 3 {
            self.pin4.is_on()
        } else if index == 4 {
            self.pin5.is_on()
        } else {
            self.pin6.is_on()
        }
    }
}

fn write_bit(pin: &mut Led, value: u8, index: u8)
    requires
        index < 8,
    ensures
        final(pin)@ == bit(value, index),
{
    proof {
        lemma_bit(value, index);
    }
    if value & (1u8 << index) != 0 {
        pin.on();
    } else {
        pin.off();
    }
}

} // verus!
