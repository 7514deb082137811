//! Byte-level encoding of 64-bit field patterns in either byte order,
//! and the byte-order swap they are transcoded with.

use vstd::prelude::*;
use vstd::bytes::{
    spec_u64_from_le_bytes, spec_u64_to_le_bytes, lemma_auto_spec_u64_to_from_le_bytes,
    spec_u64_to_le_bytes_to_open, spec_u64_to_le_bytes_open, u64_from_le_bytes, u64_to_le_bytes,
};
use vstd::slice::slice_subrange;
use crate::endianness::Endianness;

verus! {

/// The eight wire bytes of a 64-bit pattern in the given byte order.
pub open spec fn dbl_to_bytes(o: Endianness, x: u64) -> Seq<u8> {
    match o {
        Endianness::Little => spec_u64_to_le_bytes(x),
        Endianness::Big => spec_u64_to_le_bytes(x).reverse(),
    }
}

/// The 64-bit pattern eight wire bytes stand for in the given byte order.
pub open spec fn dbl_from_bytes(o: Endianness, s: Seq<u8>) -> u64
    recommends
        s.len() == 8,
{
    match o {
        Endianness::Little => spec_u64_from_le_bytes(s),
        Endianness::Big => spec_u64_from_le_bytes(s.reverse()),
    }
}

/// The 64-bit pattern with its eight bytes in reversed order.
pub open spec fn spec_swap_bytes_u64(x: u64) -> u64 {
    ((x & 0xff) << 56) | (((x >> 8) & 0xff) << 48) | (((x >> 16) & 0xff) << 40) | (((x >> 24)
        & 0xff) << 32) | (((x >> 32) & 0xff) << 24) | (((x >> 40) & 0xff) << 16) | (((x >> 48)
        & 0xff) << 8) | ((x >> 56) & 0xff)
}

/// Swapping the byte order of a 64-bit field twice is the identity.
pub proof fn lemma_swap_bytes_involution(x: u64)
    ensures
        spec_swap_bytes_u64(spec_swap_bytes_u64(x)) == x,
{
    assert(spec_swap_bytes_u64(spec_swap_bytes_u64(x)) == x) by (bit_vector);
}

/// Reverses the byte order of a 64-bit field.
pub fn swap_bytes_u64(x: u64) -> (r: u64)
    ensures
        r == spec_swap_bytes_u64(x),
{
    ((x & 0xff) << 56) | (((x >> 8) & 0xff) << 48) | (((x >> 16) & 0xff) << 40) | (((x >> 24)
        & 0xff) << 32) | (((x >> 32) & 0xff) << 24) | (((x >> 40) & 0xff) << 16) | (((x >> 48)
        & 0xff) << 8) | ((x >> 56) & 0xff)
}

/// The little-endian image of a swapped pattern is the reversed
/// little-endian image of the pattern itself: the in-register swap and the
/// on-wire byte reversal are the same transcoding.
pub proof fn lemma_swap_is_reversal(x: u64)
    ensures
        spec_u64_to_le_bytes(spec_swap_bytes_u64(x)) == spec_u64_to_le_bytes(x).reverse(),
{
    let y = spec_swap_bytes_u64(x);
    spec_u64_to_le_bytes_to_open(x);
    spec_u64_to_le_bytes_to_open(y);
    let a = spec_u64_to_le_bytes(x);
    let b = spec_u64_to_le_bytes(y);
    assert(a.len() == 8 && b.len() == 8) by {
        lemma_auto_spec_u64_to_from_le_bytes();
    };
    assert((y & 0xff) == ((x >> 56) & 0xff)) by (bit_vector)
        requires
            y == spec_swap_bytes_u64(x),
    ;
    assert(((y >> 8) & 0xff) == ((x >> 48) & 0xff)) by (bit_vector)
        requires
            y == spec_swap_bytes_u64(x),
    ;
    assert(((y >> 16) & 0xff) == ((x >> 40) & 0xff)) by (bit_vector)
        requires
            y == spec_swap_bytes_u64(x),
    ;
    assert(((y >> 24) & 0xff) == ((x >> 32) & 0xff)) by (bit_vector)
        requires
            y == spec_swap_bytes_u64(x),
    ;
    assert(((y >> 32) & 0xff) == ((x >> 24) & 0xff)) by (bit_vector)
        requires
            y == spec_swap_bytes_u64(x),
    ;
    assert(((y >> 40) & 0xff) == ((x >> 16) & 0xff)) by (bit_vector)
        requires
            y == spec_swap_bytes_u64(x),
    ;
    assert(((y >> 48) & 0xff) == ((x >> 8) & 0xff)) by (bit_vector)
        requires
            y == spec_swap_bytes_u64(x),
    ;
    assert(((y >> 56) & 0xff) == (x & 0xff)) by (bit_vector)
        requires
            y == spec_swap_bytes_u64(x),
    ;
    assert(b =~= a.reverse()) by {
        assert(b == spec_u64_to_le_bytes_open(y));
        assert(a == spec_u64_to_le_bytes_open(x));
        assert forall|i: int| 0 <= i < 8 implies b[i] == a.reverse()[i] by {
            assert(a.reverse()[i] == a[7 - i]);
        };
    };
}

/// Reading eight bytes in the opposite order yields the swapped pattern.
pub proof fn lemma_from_reversed_bytes(s: Seq<u8>)
    requires
        s.len() == 8,
    ensures
        spec_u64_from_le_bytes(s.reverse()) == spec_swap_bytes_u64(spec_u64_from_le_bytes(s)),
{
    lemma_auto_spec_u64_to_from_le_bytes();
    let x = spec_u64_from_le_bytes(s);
    assert(spec_u64_to_le_bytes(x) == s);
    lemma_swap_is_reversal(x);
    assert(spec_u64_to_le_bytes(spec_swap_bytes_u64(x)) == s.reverse());
    assert(s.reverse().len() == 8);
    assert(spec_u64_from_le_bytes(spec_u64_to_le_bytes(spec_swap_bytes_u64(x)))
        == spec_swap_bytes_u64(x));
}

/// Reads the eight bytes of `buf` starting at `off` as a 64-bit field in
/// byte order `o`.
pub fn read_u64_at(buf: &[u8], off: usize, o: Endianness) -> (x: u64)
    requires
        off + 8 <= buf@.len(),
    ensures
        x == dbl_from_bytes(o, buf@.subrange(off as int, off as int + 8)),
{
    let len = buf.len();
    proof {
        assert(off + 8 <= len);
    }
    let s = slice_subrange(buf, off, off + 8);
    let x = u64_from_le_bytes(s);
    match o {
        Endianness::Little => x,
        Endianness::Big => {
            proof {
                lemma_from_reversed_bytes(s@);
            }
            swap_bytes_u64(x)
        },
    }
}

/// Appends the eight bytes of a 64-bit field in byte order `o` to `out`.
pub fn write_u64(out: &mut Vec<u8>, x: u64, o: Endianness)
    ensures
        final(out)@ == old(out)@ + dbl_to_bytes(o, x),
{
    let v: u64 = match o {
        Endianness::Little => x,
        Endianness::Big => {
            proof {
                lemma_swap_is_reversal(x);
            }
            swap_bytes_u64(x)
        },
    };
    let mut bytes = u64_to_le_bytes(v);
    out.append(&mut bytes);
}

} // verus!
