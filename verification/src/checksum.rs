//! The additive checksum over a frame's length byte and payload.
//!
//! The checksum is the 16-bit wrapping sum of the length byte and every
//! payload byte; overflow is expected and intentional. The wire carries its
//! two's-complement negation in the trailing two bytes of a frame.

use vstd::prelude::*;

verus! {

/// Sum of all bytes of `s`, as an unbounded integer.
pub open spec fn sum_bytes(s: Seq<u8>) -> int
    decreases s.len(),
{
    if s.len() == 0 {
        0
    } else {
        sum_bytes(s.drop_last()) + s.last()
    }
}

pub proof fn lemma_sum_bytes_bounds(s: Seq<u8>)
    ensures
        0 <= sum_bytes(s) <= s.len() * 255,
    decreases s.len(),
{
    if s.len() > 0 {
        lemma_sum_bytes_bounds(s.drop_last());
        assert((s.len() - 1) * 255 + 255 == s.len() * 255) by (nonlinear_arith);
    }
}

/// The checksum of a frame whose length byte is `size` and whose payload is
/// `payload`: their byte-sum reduced modulo 2^16.
pub open spec fn checksum_spec(size: u8, payload: Seq<u8>) -> u16 {
    ((size + sum_bytes(payload)) % 0x10000) as u16
}

/// Replacing one byte of the payload shifts the byte-sum by exactly the
/// difference of the bytes.
pub proof fn lemma_sum_bytes_update(s: Seq<u8>, i: int, v: u8)
    requires
        0 <= i < s.len(),
    ensures
        sum_bytes(s.update(i, v)) == sum_bytes(s) - s[i] + v,
    decreases s.len(),
{
    if i == s.len() - 1 {
        assert(s.update(i, v).drop_last() =~= s.drop_last());
    } else {
        assert(s.update(i, v).drop_last() =~= s.drop_last().update(i, v));
        lemma_sum_bytes_update(s.drop_last(), i, v);
    }
}

/// Computes the checksum over a length byte and a payload with 16-bit
/// wraparound.
pub fn calc_checksum(size: u8, payload: &[u8]) -> (r: u16)
    ensures
        r == checksum_spec(size, payload@),
{
    let mut acc: u16 = size as u16;
    let mut i: usize = 0;
    proof {
        assert(payload@.take(0) =~= Seq::<u8>::empty());
    }
    while i < payload.len()
        invariant
            i <= payload@.len(),
            acc == (size + sum_bytes(payload@.take(i as int))) % 0x10000,
        decreases payload@.len() - i,
    {
        proof {
            let taken = payload@.take(i + 1);
            assert(taken.drop_last() =~= payload@.take(i as int));
            assert(taken.last() == payload@[i as int]);
            lemma_sum_bytes_bounds(payload@.take(i as int));
        }
        acc = acc.wrapping_add(payload[i] as u16);
        i = i + 1;
    }
    proof {
        assert(payload@.take(payload@.len() as int) =~= payload@);
    }
    acc
}

} // verus!
