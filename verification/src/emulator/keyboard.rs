//! The operator's keys: which key is held, and when a press counts.

use vstd::prelude::*;

verus! {

/// A key of the operator's pad.
#[derive(Clone, Copy, Debug, PartialEq, Eq)]
pub enum Key {
    StartWrite,
    StartRead,
    Step,
    Stop,
    Debug,
}

/// The key pins as sampled: `true` for a pin that is low.
#[derive(Clone, Copy, Debug, PartialEq, Eq)]
pub struct Keyboard {
    pub start_write: bool,
    pub start_read: bool,
    pub step: bool,
    pub stop: bool,
    pub debug: bool,
}

impl Keyboard {
    /// The key held, if any. Of several keys held at once the first in the
    /// order start-write, start-read, step, stop, debug counts.
    pub open spec fn spec_read_key(self) -> Option<Key> {
        if self.start_write {
            Some(Key::StartWrite)
        } else if self.start_read {
            Some(Key::StartRead)
        } else if self.step {
            Some(Key::Step)
        } else if self.stop {
            Some(Key::Stop)
        } else if self.debug {
            Some(Key::Debug)
        } else {
            None
        }
    }

    pub fn new(start_write: bool, start_read: bool, step: bool, stop: bool, debug: bool) -> (keyboard:
        Self)
        ensures
            keyboard == (Keyboard { start_write, start_read, step, stop, debug }),
    {
        Keyboard { start_write, start_read, step, stop, debug }
    }

    pub fn read_key(&self) -> (key: Option<Key>)
        ensures
            key == self.spec_read_key(),
    {
        if self.start_write {
            Some(Key::StartWrite)
        } else if self.start_read {
            Some(Key::StartRead)
        } else if self.step {
            Some(Key::Step)
        } else if self.stop {
            Some(Key::Stop)
        } else if self.debug {
            Some(Key::Debug)
        } else {
            None
        }
    }
}

/// The number of ticks a key must be held for its press to count.
pub const MAX_DEBOUNCES: u32 = 10;

/// The state of the debounce: how long the key has been held, and whether
/// its press has been reported.
#[derive(Clone, Copy, Debug, PartialEq, Eq)]
pub struct Debouncer {
    pub debouncer: u32,
    pub notified: bool,
}

impl Debouncer {
    /// The count after a tick: up while a key is held, to the limit and no
    /// further; down otherwise, to zero and no further.
    pub open spec fn spec_count(self, held: bool) -> u32 {
        if held && self.debouncer < MAX_DEBOUNCES {
            (self.debouncer + 1) as u32
        } else if self.debouncer > 0 {
            (self.debouncer - 1) as u32
        } else {
            self.debouncer
        }
    }

    /// The debounce after a tick. A press is reported once, when the count
    /// reaches the limit, and can be reported again only after the count has
    /// fallen back to zero.
    pub open spec fn spec_tick(self, held: bool) -> (Debouncer, bool) {
        let count = self.spec_count(held);
        if count == MAX_DEBOUNCES && !self.notified {
            (Debouncer { debouncer: count, notified: true }, true)
        } else if count == 0 && self.notified {
            (Debouncer { debouncer: count, notified: false }, false)
        } else {
            (Debouncer { debouncer: count, notified: self.notified }, false)
        }
    }

    /// A debounce at rest.
    pub fn new() -> (debounce: Self)
        ensures
            debounce == (Debouncer { debouncer: 0, notified: false }),
    {
        Debouncer { debouncer: 0, notified: false }
    }

    /// Takes one tick of the key timer; the result says whether the press
    /// counts now.
    pub fn tick(&mut self, held: bool) -> (fire: bool)
        ensures
            (*final(self), fire) == old(self).spec_tick(held),
    {
        if held && self.debouncer < MAX_DEBOUNCES {
            self.debouncer += 1;
        } else if self.debouncer > 0 {
            self.debouncer -= 1;
        }

        if self.debouncer == MAX_DEBOUNCES && !self.notified {
            self.notified = true;
            true
        } else if self.debouncer == 0 && self.notified {
            self.notified = false;
            false
        } else {
            false
        }
    }
}

/// What a counted key press asks of the stand-in host.
#[derive(Clone, Copy, Debug, PartialEq, Eq)]
pub enum Order {
    StartRead { debug: bool },
    StartWrite { debug: bool },
    Step,
    Stop,
    /// Switch the drive mode and move so many words per session.
    SetDebug { debug: bool, transfers: usize },
}

/// Words per session while stepping by hand.
pub const MAX_DEBUG_BYTES: u16 = 10;

/// The order behind a key, and the drive mode after it: the debug key flips
/// the mode, and a session by hand is short.
pub open spec fn spec_key_order(key: Key, debug: bool) -> (Order, bool) {
    match key {
        Key::StartRead => (Order::StartRead { debug }, debug),
        Key::StartWrite => (Order::StartWrite { debug }, debug),
        Key::Step => (Order::Step, debug),
        Key::Stop => (Order::Stop, debug),
        Key::Debug => (
            Order::SetDebug {
                debug: !debug,
                transfers: if !debug {
                    MAX_DEBUG_BYTES as usize
                } else {
                    u16::MAX as usize
                },
            },
            !debug,
        ),
    }
}

/// Turns a counted key press into an order for the stand-in host.
pub fn keyboard_handler(key: Key, debug: bool) -> (order: (Order, bool))
    ensures
        order == spec_key_order(key, debug),
{
    match key {
        Key::StartRead => (Order::StartRead { debug }, debug),
        Key::StartWrite => (Order::StartWrite { debug }, debug),
        Key::Step => (Order::Step, debug),
        Key::Stop => (Order::Stop, debug),
        Key::Debug => {
            let debug = !debug;
            let max_bytes = if debug {
                MAX_DEBUG_BYTES
            } else {
                u16::MAX
            };
            (Order::SetDebug { debug, transfers: max_bytes as usize }, debug)
        },
    }
}

/// The count of a debounce never passes the limit.
pub proof fn lemma_debounce_bounded(debounce: Debouncer, held: bool)
    requires
        debounce.debouncer <= MAX_DEBOUNCES,
    ensures
        debounce.spec_tick(held).0.debouncer <= MAX_DEBOUNCES,
        debounce.spec_tick(held).1 ==> held && !debounce.notified,
{
}

} // verus!
