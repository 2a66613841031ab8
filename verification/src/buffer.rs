//! The bounded byte buffer between the bus and the card.

use vstd::prelude::*;

verus! {

/// The capacity of the device's buffer, in bytes.
pub const BUFFER_SIZE: usize = 10240;

/// What a buffer holds: its bytes, the most it may hold, and how many of
/// its bytes have been read.
pub struct Contents {
    pub bytes: Seq<u8>,
    pub capacity: nat,
    pub cursor: nat,
}

/// The two bytes of `word`, low byte first.
pub open spec fn word_bytes(word: u16) -> Seq<u8> {
    seq![(word % 256) as u8, (word / 256) as u8]
}

/// The word whose low byte is at `at` and whose high byte follows it. A
/// byte past the end counts as zero.
pub open spec fn word_at(bytes: Seq<u8>, at: int) -> u16 {
    let lo: int = if 0 <= at < bytes.len() {
        bytes[at] as int
    } else {
        0
    };
    let hi: int = if 0 <= at + 1 < bytes.len() {
        bytes[at + 1] as int
    } else {
        0
    };
    (lo + 256 * hi) as u16
}

/// The bytes of a sequence of words, each low byte first.
pub open spec fn words_bytes(words: Seq<u16>) -> Seq<u8>
    decreases words.len(),
{
    if words.len() == 0 {
        Seq::empty()
    } else {
        words_bytes(words.drop_last()) + word_bytes(words.last())
    }
}

impl Contents {
    /// At most `capacity` bytes are held, no more are read than held, and the
    /// capacity is within what the store behind the buffer can take.
    pub open spec fn wf(self) -> bool {
        &&& self.bytes.len() <= self.capacity
        &&& self.capacity <= BUFFER_SIZE
        &&& self.cursor <= self.bytes.len()
    }

    /// Nothing held, nothing read.
    pub open spec fn cleared(self) -> Contents {
        Contents { bytes: Seq::empty(), cursor: 0, ..self }
    }

    /// The two bytes of `word` added at the end.
    pub open spec fn pushed(self, word: u16) -> Contents {
        Contents { bytes: self.bytes + word_bytes(word), ..self }
    }

    /// Whether every held byte has been read.
    pub open spec fn exhausted(self) -> bool {
        self.cursor >= self.bytes.len()
    }

    /// Whether no further byte fits.
    pub open spec fn full(self) -> bool {
        self.bytes.len() >= self.capacity
    }

    /// The next unread word.
    pub open spec fn next_word(self) -> u16 {
        word_at(self.bytes, self.cursor as int)
    }

    /// The cursor moved past the next word, or to the end where less than a
    /// word is left.
    pub open spec fn advanced(self) -> Contents {
        Contents {
            cursor: if self.cursor + 2 <= self.bytes.len() {
                self.cursor + 2
            } else {
                self.bytes.len()
            },
            ..self
        }
    }

    /// How many of `incoming` bytes a refill takes: all that fit.
    pub open spec fn taken(self, incoming: Seq<u8>) -> nat {
        if incoming.len() <= self.capacity {
            incoming.len()
        } else {
            self.capacity
        }
    }

    /// The held bytes replaced by the first of `incoming` that fit, none of
    /// them read.
    pub open spec fn refilled(self, incoming: Seq<u8>) -> Contents {
        Contents { bytes: incoming.take(self.taken(incoming) as int), cursor: 0, ..self }
    }
}

/// `heapless::Vec`: a vector in a buffer of `N` elements, held in place.
/// Nothing is known of a value but what the functions below say of it.
#[verifier::external_type_specification]
#[verifier::external_body]
#[verifier::reject_recursive_types(T)]
pub struct ExFixedVec<T, const N: usize>(heapless::Vec<T, N>);

/// The bytes that a `heapless::Vec` of bytes holds, in order: the elements
/// of the slice that `as_slice` gives.
pub uninterp spec fn held_bytes(bytes: heapless::Vec<u8, 10240>) -> Seq<u8>;

/// `heapless::Vec::new`: a vector that holds nothing.
#[verifier::external_body]
fn empty_bytes() -> (bytes: heapless::Vec<u8, 10240>)
    ensures
        held_bytes(bytes) == Seq::<u8>::empty(),
{
    heapless::Vec::new()
}

/// `heapless::Vec::push`: while fewer bytes are held than the vector has
/// room for, the byte is added at the end; a full vector is left as it is
/// and the push is refused.
#[verifier::external_body]
fn push_byte(bytes: &mut heapless::Vec<u8, 10240>, byte: u8) -> (pushed: bool)
    ensures
        pushed == (held_bytes(*old(bytes)).len() < 10240),
        pushed ==> held_bytes(*final(bytes)) == held_bytes(*old(bytes)).push(byte),
        !pushed ==> held_bytes(*final(bytes)) == held_bytes(*old(bytes)),
{
    bytes.push(byte).is_ok()
}

/// `heapless::Vec::clear`: nothing is held afterwards.
#[verifier::external_body]
fn clear_bytes(bytes: &mut heapless::Vec<u8, 10240>)
    ensures
        held_bytes(*final(bytes)) == Seq::<u8>::empty(),
{
    bytes.clear()
}

/// `heapless::Vec::as_slice`: the held bytes as a slice.
#[verifier::external_body]
fn held_slice(bytes: &heapless::Vec<u8, 10240>) -> (slice: &[u8])
    ensures
        slice@ == held_bytes(*bytes),
{
    bytes.as_slice()
}

/// A bounded accumulator of bytes with a read cursor.
pub struct Buffer {
    bytes: heapless::Vec<u8, 10240>,
    capacity: usize,
    cursor: usize,
}

impl Buffer {
    pub closed spec fn view(&self) -> Contents {
        Contents {
            bytes: held_bytes(self.bytes),
            capacity: self.capacity as nat,
            cursor: self.cursor as nat,
        }
    }

    /// An empty buffer of the largest capacity.
    pub fn new() -> (buffer: Self)
        ensures
            buffer@ == (Contents { bytes: Seq::empty(), capacity: BUFFER_SIZE as nat, cursor: 0 }),
            buffer@.wf(),
    {
        Buffer { bytes: empty_bytes(), capacity: BUFFER_SIZE, cursor: 0 }
    }

    /// An empty buffer that holds at most `capacity` bytes.
    pub fn with_capacity(capacity: usize) -> (buffer: Self)
        requires
            capacity <= BUFFER_SIZE,
        ensures
            buffer@ == (Contents { bytes: Seq::empty(), capacity: capacity as nat, cursor: 0 }),
            buffer@.wf(),
    {
        Buffer { bytes: empty_bytes(), capacity, cursor: 0 }
    }

    pub fn len(&self) -> (len: usize)
        ensures
            len == self@.bytes.len(),
    {
        held_slice(&self.bytes).len()
    }

    pub fn capacity(&self) -> (capacity: usize)
        ensures
            capacity == self@.capacity,
    {
        self.capacity
    }

    pub fn is_empty(&self) -> (empty: bool)
        ensures
            empty == (self@.bytes.len() == 0),
    {
        self.len() == 0
    }

    pub fn is_full(&self) -> (full: bool)
        ensures
            full == self@.full(),
    {
        self.len() >= self.capacity
    }

    pub fn is_exhausted(&self) -> (exhausted: bool)
        ensures
            exhausted == self@.exhausted(),
    {
        self.cursor >= self.len()
    }

    /// Drops every byte and rewinds the cursor.
    pub fn clear(&mut self)
        ensures
            final(self)@ == old(self)@.cleared(),
    {
        clear_bytes(&mut self.bytes);
        self.cursor = 0;
    }

    /// Adds the two bytes of `word`, low byte first.
    pub fn push_word(&mut self, word: u16)
        requires
            old(self)@.wf(),
            old(self)@.bytes.len() + 2 <= old(self)@.capacity,
        ensures
            final(self)@ == old(self)@.pushed(word),
            final(self)@.wf(),
    {
        let low = push_byte(&mut self.bytes, (word % 256) as u8);
        let high = push_byte(&mut self.bytes, (word / 256) as u8);
        assert(low && high);
        assert(held_bytes(self.bytes) =~= held_bytes(old(self).bytes) + word_bytes(word));
    }

    /// Reads the next word and moves the cursor past it.
    pub fn pop_word(&mut self) -> (word: u16)
        requires
            old(self)@.wf(),
        ensures
            word == old(self)@.next_word(),
            final(self)@ == old(self)@.advanced(),
            final(self)@.wf(),
    {
        let bytes = held_slice(&self.bytes);
        let len = bytes.len();
        let lo: u16 = if self.cursor < len {
            bytes[self.cursor] as u16
        } else {
            0
        };
        let hi: u16 = if self.cursor < len && self.cursor + 1 < len {
            bytes[self.cursor + 1] as u16
        } else {
            0
        };
        if self.cursor < len && self.cursor + 1 < len {
            self.cursor = self.cursor + 2;
        } else {
            self.cursor = len;
        }
        lo + hi * 256
    }

    /// Replaces the held bytes by the first of `incoming` that fit and
    /// rewinds the cursor; the result is how many were taken.
    pub fn refill(&mut self, incoming: Vec<u8>) -> (taken: usize)
        requires
            old(self)@.wf(),
        ensures
            taken == old(self)@.taken(incoming@),
            final(self)@ == old(self)@.refilled(incoming@),
            final(self)@.wf(),
    {
        let taken = if incoming.len() <= self.capacity {
            incoming.len()
        } else {
            self.capacity
        };
        clear_bytes(&mut self.bytes);
        self.cursor = 0;
        let mut i: usize = 0;
        while i < taken
            invariant
                i <= taken <= incoming.len(),
                taken <= self.capacity <= BUFFER_SIZE,
                self.capacity == old(self).capacity,
                self.cursor == 0,
                held_bytes(self.bytes) == incoming@.take(i as int),
            decreases taken - i,
        {
            let pushed = push_byte(&mut self.bytes, incoming[i]);
            assert(pushed);
            assert(incoming@.take(i as int).push(incoming@[i as int]) =~= incoming@.take(i + 1));
            i += 1;
        }
        taken
    }

    /// A copy of the held bytes.
    pub fn contents(&self) -> (bytes: Vec<u8>)
        ensures
            bytes@ == self@.bytes,
    {
        let held = held_slice(&self.bytes);
        let mut bytes: Vec<u8> = Vec::new();
        let mut i: usize = 0;
        while i < held.len()
            invariant
                i <= held.len(),
                held@ == held_bytes(self.bytes),
                bytes@ == held@.take(i as int),
            decreases held.len() - i,
        {
            bytes.push(held[i]);
            assert(held@.take(i as int).push(held@[i as int]) =~= held@.take(i + 1));
            i += 1;
        }
        assert(held@.take(held.len() as int) =~= held@);
        bytes
    }
}

/// A word is read back from its two bytes.
pub proof fn lemma_word_round_trip(word: u16)
    ensures
        word_at(word_bytes(word), 0) == word,
{
}

/// Words written one after another are read back, each at twice its index.
pub proof fn lemma_words_bytes(words: Seq<u16>, i: int)
    requires
        0 <= i < words.len(),
    ensures
        words_bytes(words).len() == 2 * words.len(),
        word_at(words_bytes(words), 2 * i) == words[i],
    decreases words.len(),
{
    lemma_words_len(words);
    lemma_words_len(words.drop_last());
    if i < words.len() - 1 {
        lemma_words_bytes(words.drop_last(), i);
    } else {
        lemma_word_round_trip(words.last());
    }
}

/// Each word takes two bytes.
pub proof fn lemma_words_len(words: Seq<u16>)
    ensures
        words_bytes(words).len() == 2 * words.len(),
    decreases words.len(),
{
    if words.len() > 0 {
        lemma_words_len(words.drop_last());
    }
}

} // verus!
