//! Big-endian integers on the wire.
//!
//! Every record this flight computer logs or transmits is a packed run of
//! big-endian fields. This module gives that encoding a mathematical model
//! (`be_value`, `be_bytes`), proves that the two directions are inverse to
//! each other, and binds the `byteorder` crate's `BigEndian` readers and
//! writers to the model.

use byteorder::{BigEndian, ByteOrder};
use vstd::arithmetic::div_mod::{lemma_breakdown, lemma_fundamental_div_mod_converse};
use vstd::prelude::*;

verus! {

/// The number of values that `len` bytes can spell: 256 to the power `len`.
pub open spec fn radix(len: nat) -> nat
    decreases len,
{
    if len == 0 {
        1
    } else {
        256 * radix((len - 1) as nat)
    }
}

/// The number that the bytes of `s` spell in base 256, most significant
/// byte first.
pub open spec fn be_value(s: Seq<u8>) -> nat
    decreases s.len(),
{
    if s.len() == 0 {
        0
    } else {
        be_value(s.drop_last()) * 256 + s.last() as nat
    }
}

/// The `len` least significant base-256 digits of `n`, most significant
/// first. Digits of `n` beyond the `len`-th are dropped.
pub open spec fn be_bytes(n: nat, len: nat) -> Seq<u8>
    decreases len,
{
    if len == 0 {
        Seq::empty()
    } else {
        be_bytes(n / 256, (len - 1) as nat).push((n % 256) as u8)
    }
}

/// The two's-complement reading of a 16-bit pattern.
pub open spec fn signed16(v: nat) -> int {
    if v < 0x8000 {
        v as int
    } else {
        v - 0x1_0000
    }
}

/// `radix` at the field widths that the wire formats use.
pub proof fn lemma_radix_values()
    ensures
        radix(0) == 1,
        radix(1) == 0x100,
        radix(2) == 0x1_0000,
        radix(4) == 0x1_0000_0000,
        radix(6) == 0x1_0000_0000_0000,
        radix(8) == 0x1_0000_0000_0000_0000,
{
    reveal_with_fuel(radix, 9);
}

/// `be_bytes(n, len)` is `len` bytes long.
pub proof fn lemma_be_bytes_len(n: nat, len: nat)
    ensures
        be_bytes(n, len).len() == len,
    decreases len,
{
    if len > 0 {
        lemma_be_bytes_len(n / 256, (len - 1) as nat);
    }
}

/// A byte string spells a number below `radix` of its length.
pub proof fn lemma_be_value_bound(s: Seq<u8>)
    ensures
        be_value(s) < radix(s.len()),
    decreases s.len(),
{
    if s.len() > 0 {
        lemma_be_value_bound(s.drop_last());
    }
}

/// Reading back what was written gives the number, reduced to the width
/// written.
pub proof fn lemma_be_value_of_bytes(n: nat, len: nat)
    ensures
        be_value(be_bytes(n, len)) == n % radix(len),
    decreases len,
{
    if len > 0 {
        let rest: nat = (len - 1) as nat;
        let high = be_bytes(n / 256, rest);
        lemma_be_value_of_bytes(n / 256, rest);
        lemma_radix_positive(rest);
        assert(be_bytes(n, len).drop_last() =~= high);
        lemma_breakdown(n as int, 256, radix(rest) as int);
        assert(((n / 256) % radix(rest)) * 256 == 256 * ((n / 256) % radix(rest)));
    }
}

/// Writing the number that a byte string spells, at the string's own width,
/// gives the string back.
pub proof fn lemma_be_bytes_of_value(s: Seq<u8>)
    ensures
        be_bytes(be_value(s), s.len()) == s,
    decreases s.len(),
{
    if s.len() > 0 {
        let high = be_value(s.drop_last());
        lemma_be_bytes_of_value(s.drop_last());
        lemma_fundamental_div_mod_converse(
            be_value(s) as int,
            256,
            high as int,
            s.last() as int,
        );
    }
    assert(be_bytes(be_value(s), s.len()) =~= s);
}

/// Two byte strings of one length that spell the same number are equal.
pub proof fn lemma_be_value_injective(a: Seq<u8>, b: Seq<u8>)
    requires
        a.len() == b.len(),
        be_value(a) == be_value(b),
    ensures
        a == b,
{
    lemma_be_bytes_of_value(a);
    lemma_be_bytes_of_value(b);
}

/// The last `len` bytes of a wider encoding are the encoding at width `len`:
/// narrowing a field drops the most significant bytes.
pub proof fn lemma_be_bytes_low(n: nat, extra: nat, len: nat)
    ensures
        be_bytes(n, extra + len).skip(extra as int) == be_bytes(n, len),
    decreases len,
{
    lemma_be_bytes_len(n, extra + len);
    if len > 0 {
        let rest: nat = (len - 1) as nat;
        lemma_be_bytes_low(n / 256, extra, rest);
        lemma_be_bytes_len(n / 256, extra + rest);
    }
    assert(be_bytes(n, extra + len).skip(extra as int) =~= be_bytes(n, len));
}

proof fn lemma_radix_positive(len: nat)
    ensures
        radix(len) > 0,
    decreases len,
{
    if len > 0 {
        lemma_radix_positive((len - 1) as nat);
    }
}

/// `byteorder::BigEndian::read_i16`: reads the first two bytes of `buf` as a
/// big-endian unsigned number and reinterprets it in two's complement. The
/// outside function panics on a buffer of fewer than two bytes.
#[verifier::external_body]
pub(crate) fn read_i16(buf: &[u8]) -> (n: i16)
    requires
        buf@.len() >= 2,
    ensures
        n as int == signed16(be_value(buf@.take(2))),
{
    BigEndian::read_i16(buf)
}

/// `byteorder::BigEndian::read_u32`: the number spelt by the first four
/// bytes of `buf`. The outside function panics on a shorter buffer.
#[verifier::external_body]
pub(crate) fn read_u32(buf: &[u8]) -> (n: u32)
    requires
        buf@.len() >= 4,
    ensures
        n as nat == be_value(buf@.take(4)),
{
    BigEndian::read_u32(buf)
}

/// `byteorder::BigEndian::read_u64`: the number spelt by the first eight
/// bytes of `buf`. The outside function panics on a shorter buffer.
#[verifier::external_body]
pub(crate) fn read_u64(buf: &[u8]) -> (n: u64)
    requires
        buf@.len() >= 8,
    ensures
        n as nat == be_value(buf@.take(8)),
{
    BigEndian::read_u64(buf)
}

/// `byteorder::BigEndian::write_u16`: overwrites the first two bytes of
/// `buf` with `n`, most significant byte first, and leaves the rest alone.
/// The outside function panics on a shorter buffer.
#[verifier::external_body]
pub(crate) fn write_u16(buf: &mut [u8], n: u16)
    requires
        old(buf)@.len() >= 2,
    ensures
        final(buf)@ == be_bytes(n as nat, 2) + old(buf)@.skip(2),
{
    BigEndian::write_u16(buf, n)
}

/// `byteorder::BigEndian::write_u32`: overwrites the first four bytes of
/// `buf` with `n`, most significant byte first, and leaves the rest alone.
/// The outside function panics on a shorter buffer.
#[verifier::external_body]
pub(crate) fn write_u32(buf: &mut [u8], n: u32)
    requires
        old(buf)@.len() >= 4,
    ensures
        final(buf)@ == be_bytes(n as nat, 4) + old(buf)@.skip(4),
{
    BigEndian::write_u32(buf, n)
}

/// `byteorder::BigEndian::write_u64`: overwrites the first eight bytes of
/// `buf` with `n`, most significant byte first, and leaves the rest alone.
/// The outside function panics on a shorter buffer.
#[verifier::external_body]
pub(crate) fn write_u64(buf: &mut [u8], n: u64)
    requires
        old(buf)@.len() >= 8,
    ensures
        final(buf)@ == be_bytes(n as nat, 8) + old(buf)@.skip(8),
{
    BigEndian::write_u64(buf, n)
}

/// Copies `src` over the bytes of `dst` that start at index `at`.
pub fn copy_into(dst: &mut [u8], at: usize, src: &[u8])
    requires
        at + src@.len() <= old(dst)@.len(),
    ensures
        final(dst)@ == old(dst)@.take(at as int) + src@ + old(dst)@.skip(at + src@.len()),
{
    let n: usize = src.len();
    let total: usize = dst.len();
    let mut i: usize = 0;
    while i < n
        invariant
            n == src@.len(),
            total == dst@.len(),
            i <= n,
            at + n <= dst@.len(),
            dst@.len() == old(dst)@.len(),
            dst@ == old(dst)@.take(at as int) + src@.take(i as int) + old(dst)@.skip(at + i),
        decreases n - i,
    {
        dst[at + i] = src[i];
        i += 1;
    }
}

} // verus!
