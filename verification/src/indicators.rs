//! The three activity lamps of the device.

use vstd::prelude::*;
use crate::led::Led;

verus! {

/// The lamps for a fault, a write session and a read session.
#[derive(Clone, Copy, Debug, PartialEq, Eq)]
pub struct Indicators {
    system_error: Led,
    write: Led,
    read: Led,
}

/// Which of the three lamps are lit.
pub struct Lamps {
    pub system_error: bool,
    pub write: bool,
    pub read: bool,
}

impl Lamps {
    /// No lamp lit.
    pub open spec fn dark() -> Lamps {
        Lamps { system_error: false, write: false, read: false }
    }
}

impl Indicators {
    pub closed spec fn view(&self) -> Lamps {
        Lamps { system_error: self.system_error@, write: self.write@, read: self.read@ }
    }

    /// Three lamps, all off.
    pub fn new() -> (indicators: Self)
        ensures
            indicators@ == Lamps::dark(),
    {
        Indicators { system_error: Led::new(), write: Led::new(), read: Led::new() }
    }

    pub fn system_error_on(&mut self)
        ensures
            final(self)@ == (Lamps { system_error: true, ..old(self)@ }),
    {
        self.system_error.on();
    }

    pub fn system_error_off(&mut self)
        ensures
            final(self)@ == (Lamps { system_error: false, ..old(self)@ }),
    {
        self.system_error.off();
    }

    pub fn write_on(&mut self)
        ensures
            final(self)@ == (Lamps { write: true, ..old(self)@ }),
    {
        self.write.on();
    }

    pub fn write_off(&mut self)
        ensures
            final(self)@ == (Lamps { write: false, ..old(self)@ }),
    {
        self.write.off();
    }

    pub fn read_on(&mut self)
        ensures
            final(self)@ == (Lamps { read: true, ..old(self)@ }),
    {
        self.read.on();
    }

    pub fn read_off(&mut self)
        ensures
            final(self)@ == (Lamps { read: false, ..old(self)@ }),
    {
        self.read.off();
    }

    pub fn all_on(&mut self)
        ensures
            final(self)@ == (Lamps { system_error: true, write: true, read: true }),
    {
        self.system_error_on();
        self.write_on();
        self.read_on();
    }

    pub fn all_off(&mut self)
        ensures
            final(self)@ == Lamps::dark(),
    {
        self.system_error_off();
        self.write_off();
        self.read_off();
    }

    pub fn is_system_error_on(&self) -> (lit: bool)
        ensures
            lit == self@.system_error,
    {
        self.system_error.is_on()
    }

    pub fn is_write_on(&self) -> (lit: bool)
        ensures
            lit == self@.write,
    {
        self.write.is_on()
    }

    pub fn is_read_on(&self) -> (lit: bool)
        ensures
            lit == self@.read,
    {
        self.read.is_on()
    }
}

} // verus!
