//! Record names: the decimal digits of a record's number, least significant
//! digit first, in a string of fixed capacity.

use vstd::prelude::*;

verus! {

/// The most bytes a record name holds.
pub const FILE_NAME_LEN: usize = 5;

/// `heapless::String`: a string in a buffer of `N` bytes, held in place.
/// Nothing is known of a value but what the functions below say of it.
#[verifier::external_type_specification]
#[verifier::external_body]
pub struct ExFixedString<const N: usize>(heapless::String<N>);

/// The bytes that a `heapless::String` of capacity five holds, in order:
/// the bytes of the text that `as_str` gives.
pub uninterp spec fn name_bytes(name: heapless::String<5>) -> Seq<u8>;

/// `heapless::String::new`: a string that holds nothing.
#[verifier::external_body]
fn empty_name() -> (name: heapless::String<5>)
    ensures
        name_bytes(name) == Seq::<u8>::empty(),
{
    heapless::String::new()
}

/// `heapless::String::push` of a one-byte character: while fewer than five
/// bytes are held the byte is added at the end; a full string is left as it
/// is and the push is refused.
#[verifier::external_body]
fn push_symbol(name: &mut heapless::String<5>, symbol: u8) -> (pushed: bool)
    requires
        symbol < 128,
    ensures
        pushed == (name_bytes(*old(name)).len() < 5),
        pushed ==> name_bytes(*final(name)) == name_bytes(*old(name)).push(symbol),
        !pushed ==> name_bytes(*final(name)) == name_bytes(*old(name)),
{
    name.push(symbol as char).is_ok()
}

/// `heapless::String::clone`: a string that holds the same bytes.
#[verifier::external_body]
fn copy_name(name: &heapless::String<5>) -> (copy: heapless::String<5>)
    ensures
        name_bytes(copy) == name_bytes(*name),
{
    name.clone()
}

/// `heapless::String::as_str`: the held bytes as text. Where every byte is
/// below 128, each byte is one character.
#[verifier::external_body]
fn name_text(name: &heapless::String<5>) -> (text: &str)
    ensures
        (forall|i: int| 0 <= i < name_bytes(*name).len() ==> name_bytes(*name)[i] < 128) ==> {
            &&& text@.len() == name_bytes(*name).len()
            &&& forall|i: int|
                0 <= i < text@.len() ==> #[trigger] text@[i] == name_bytes(*name)[i] as char
        },
{
    name.as_str()
}

/// The decimal digits of `n` as characters, least significant first. Zero
/// has no digits.
pub open spec fn digits(n: nat) -> Seq<u8>
    decreases n,
{
    if n == 0 {
        Seq::empty()
    } else {
        seq![(0x30 + n % 10) as u8] + digits(n / 10)
    }
}

/// Ten to the power `k`.
pub open spec fn ten_to(k: nat) -> nat
    decreases k,
{
    if k == 0 {
        1
    } else {
        10 * ten_to((k - 1) as nat)
    }
}

/// A number below ten to the `k` has at most `k` digits, all of them
/// decimal digit characters.
pub proof fn lemma_digits(n: nat, k: nat)
    requires
        n < ten_to(k),
    ensures
        digits(n).len() <= k,
        forall|i: int| 0 <= i < digits(n).len() ==> 0x30 <= #[trigger] digits(n)[i] <= 0x39,
    decreases n,
{
    if n > 0 {
        lemma_digits(n / 10, (k - 1) as nat);
        assert forall|i: int| 0 <= i < digits(n).len() implies 0x30 <= #[trigger] digits(n)[i]
            <= 0x39 by {
            if i > 0 {
                assert(digits(n)[i] == digits(n / 10)[i - 1]);
            }
        }
    }
}

proof fn lemma_ten_to_five()
    ensures
        ten_to(5) == 100000,
{
    assert(ten_to(1) == 10) by {
        assert(ten_to(0) == 1);
    }
    assert(ten_to(2) == 100);
    assert(ten_to(3) == 1000);
    assert(ten_to(4) == 10000);
}

/// The name of a record on the card.
pub struct FileName {
    inner: heapless::String<5>,
}

/// A value that names a record.
pub trait AsFileName {
    fn as_file_name(&self) -> FileName;
}

impl FileName {
    /// The characters of the name, as bytes.
    pub closed spec fn view(&self) -> Seq<u8> {
        name_bytes(self.inner)
    }

    /// The empty name.
    pub fn new() -> (name: Self)
        ensures
            name@ == Seq::<u8>::empty(),
    {
        FileName { inner: empty_name() }
    }

    /// The name of record `address`: its decimal digits, least significant
    /// first.
    pub fn from(address: u16) -> (name: Self)
        ensures
            name@ == digits(address as nat),
            name@.len() <= FILE_NAME_LEN,
            name.is_decimal(),
    {
        let mut inner = empty_name();
        let mut num: usize = address as usize;
        proof {
            lemma_ten_to_five();
            lemma_digits(address as nat, 5);
        }

        while num > 0
            invariant
                name_bytes(inner) + digits(num as nat) == digits(address as nat),
                digits(address as nat).len() <= 5,
            decreases num,
        {
            let digit = num % 10;
            let symbol: u8 = 0x30 + digit as u8;
            let ghost before = name_bytes(inner);
            proof {
                assert(digits(num as nat) == seq![symbol] + digits((num / 10) as nat));
                assert((before + digits(num as nat)).len() == before.len() + digits(
                    num as nat,
                ).len());
                assert(before.push(symbol) + digits((num / 10) as nat) =~= before + digits(
                    num as nat,
                ));
            }
            let pushed = push_symbol(&mut inner, symbol);
            assert(pushed);
            num /= 10;
        }
        proof {
            assert(name_bytes(inner) + digits(0) =~= name_bytes(inner));
        }
        FileName { inner }
    }

    /// A second name with the same characters.
    pub fn duplicate(&self) -> (name: Self)
        ensures
            name@ == self@,
    {
        FileName { inner: copy_name(&self.inner) }
    }

    /// The number of characters.
    pub open spec fn spec_len(&self) -> nat {
        self@.len()
    }

    /// Whether every character is a decimal digit.
    pub open spec fn is_decimal(&self) -> bool {
        forall|i: int| 0 <= i < self@.len() ==> 0x30 <= #[trigger] self@[i] <= 0x39
    }

    /// The name as text. A name made of decimal digits reads as those
    /// digits.
    pub fn as_str(&self) -> (text: &str)
        ensures
            self.is_decimal() ==> {
                &&& text@.len() == self@.len()
                &&& forall|i: int| 0 <= i < text@.len() ==> #[trigger] text@[i] == self@[i] as char
            },
    {
        name_text(&self.inner)
    }
}

impl AsFileName for u16 {
    /// The name of the record with this number.
    fn as_file_name(&self) -> (name: FileName)
        ensures
            name@ == digits(*self as nat),
    {
        FileName::from(*self)
    }
}

/// The name of a record has at most five characters, all decimal digits.
pub proof fn lemma_name_of_address(address: u16)
    ensures
        digits(address as nat).len() <= FILE_NAME_LEN,
        forall|i: int|
            0 <= i < digits(address as nat).len() ==> 0x30 <= #[trigger] digits(address as nat)[i]
                <= 0x39,
{
    lemma_ten_to_five();
    lemma_digits(address as nat, 5);
}

} // verus!
