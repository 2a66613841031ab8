//! A lamp on a pin that lights when the pin is driven low.

use vstd::prelude::*;

verus! {

/// A lamp and the level its pin is to have.
#[derive(Clone, Copy, Debug, PartialEq, Eq)]
pub struct Led {
    lit: bool,
}

impl Led {
    /// Whether the lamp is lit.
    pub closed spec fn view(&self) -> bool {
        self.lit
    }

    /// A lamp that is off.
    pub fn new() -> (led: Self)
        ensures
            !led@,
    {
        Led { lit: false }
    }

    pub fn on(&mut self)
        ensures
            final(self)@,
    {
        self.lit = true;
    }

    pub fn off(&mut self)
        ensures
            !final(self)@,
    {
        self.lit = false;
    }

    pub fn is_on(&self) -> (lit: bool)
        ensures
            lit == self@,
    {
        self.lit
    }

    /// The level to drive the pin to: low while lit.
    pub fn pin_high(&self) -> (high: bool)
        ensures
            high == !self@,
    {
        !self.lit
    }
}

} // verus!
