//! Single-bit moves between registers.

use vstd::prelude::*;

verus! {

/// Whether bit `n` of `bits` is one.
pub open spec fn line(bits: u32, n: u32) -> bool {
    (bits >> n) & 1 == 1
}

/// `to` with bit `dst` replaced by bit `src` of `from`.
pub open spec fn with_line(to: u32, dst: u32, from: u32, src: u32) -> u32 {
    if line(from, src) {
        to | (1u32 << dst)
    } else {
        to & !(1u32 << dst)
    }
}

proof fn lemma_write_bit(to: u32, dst: u32, from: u32, src: u32)
    by (bit_vector)
    requires
        dst < 32,
        src < 32,
    ensures
        (to & !(1u32 << dst)) | (((from >> src) & 1) << dst) == (if (from >> src) & 1 == 1 {
            to | (1u32 << dst)
        } else {
            to & !(1u32 << dst)
        }),
{
}

/// The moved bit lands on `dst` and every other bit of `to` is kept.
pub proof fn lemma_with_line_lines(to: u32, dst: u32, from: u32, src: u32, n: u32)
    by (bit_vector)
    requires
        dst < 32,
        src < 32,
        n < 32,
    ensures
        ((if (from >> src) & 1 == 1 {
            to | (1u32 << dst)
        } else {
            to & !(1u32 << dst)
        }) >> n) & 1 == (if n == dst {
            (from >> src) & 1
        } else {
            (to >> n) & 1
        }),
{
}

/// Copies bit `src` of `from` onto bit `dst` of `to`.
pub fn write_bit(to: u32, dst: u32, from: u32, src: u32) -> (out: u32)
    requires
        dst < 32,
        src < 32,
    ensures
        out == with_line(to, dst, from, src),
        forall|n: u32|
            n < 32 ==> #[trigger] line(out, n) == (if n == dst {
                line(from, src)
            } else {
                line(to, n)
            }),
{
    let bit = (from >> src) & 1;
    let clean = to & !(1u32 << dst);
    proof {
        lemma_write_bit(to, dst, from, src);
        assert forall|n: u32| n < 32 implies #[trigger] line(with_line(to, dst, from, src), n)
            == (if n == dst {
            line(from, src)
        } else {
            line(to, n)
        }) by {
            lemma_with_line_lines(to, dst, from, src, n);
        }
    }
    clean | (bit << dst)
}

/// The register after a write: owned pins take the levels of `levels`,
/// every other pin keeps the level it has in `register`.
pub open spec fn spec_port_write(register: u32, owned: u16, levels: u16) -> u32 {
    (register & !(owned as u32)) | ((levels & owned) as u32)
}

proof fn lemma_port_write(register: u32, owned: u16, levels: u16)
    by (bit_vector)
    ensures
        (register & ((owned as u32) ^ 0xFFFF_FFFFu32)) | ((levels as u32) & (owned as u32)) == (register
            & !(owned as u32)) | ((levels & owned) as u32),
{
}

/// Merges the levels of the owned pins into the current value of an output
/// register.
pub fn port_write(register: u32, owned: u16, levels: u16) -> (out: u32)
    ensures
        out == spec_port_write(register, owned, levels),
{
    proof {
        lemma_port_write(register, owned, levels);
    }
    (register & ((owned as u32) ^ 0xFFFF_FFFFu32)) | ((levels as u32) & (owned as u32))
}

/// A write to the pins behind `owned` leaves every pin outside `owned` as it
/// was, and puts each pin inside at the level given for it.
pub proof fn lemma_port_write_pins(register: u32, owned: u16, levels: u16, n: u32)
    by (bit_vector)
    requires
        n < 32,
    ensures
        ((((register & !(owned as u32)) | ((levels & owned) as u32)) >> n) & 1) == (if n < 16 && ((
        owned as u32) >> n) & 1 == 1 {
            ((levels as u32) >> n) & 1
        } else {
            (register >> n) & 1
        }),
{
}

} // verus!
