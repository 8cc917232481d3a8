//! Decoding of the price oracle's storage word.
//!
//! A price oracle stores its current and next values in a 32-byte storage
//! word whose low 16 bytes are the 18-decimal price, big-endian.  The raw
//! word arrives from a remote storage read; this module turns its bytes
//! into a [`FixedPoint`] price.

use vstd::prelude::*;

use crate::fixed_point::FixedPoint;

verus! {

/// The value of a byte sequence read as a big-endian integer.
pub open spec fn be_bytes_value(s: Seq<u8>) -> nat
    decreases s.len(),
{
    if s.len() == 0 {
        0
    } else {
        (be_bytes_value(s.drop_last()) * 256 + s.last()) as nat
    }
}

/// 256^n.
pub open spec fn pow256(n: nat) -> nat
    decreases n,
{
    if n == 0 {
        1
    } else {
        256 * pow256((n - 1) as nat)
    }
}

/// The last sixteen bytes of a sequence, or all of it when it is shorter.
pub open spec fn low_sixteen(s: Seq<u8>) -> Seq<u8> {
    if s.len() <= 16 {
        s
    } else {
        s.skip(s.len() - 16)
    }
}

/// A big-endian value is bounded by 256 to the number of its bytes.
proof fn lemma_be_bytes_bound(s: Seq<u8>)
    ensures
        be_bytes_value(s) < pow256(s.len()),
    decreases s.len(),
{
    if s.len() > 0 {
        lemma_be_bytes_bound(s.drop_last());
    }
}

/// 256^n does not decrease with n.
proof fn lemma_pow256_increases(a: nat, b: nat)
    requires
        a <= b,
    ensures
        pow256(a) <= pow256(b),
    decreases b,
{
    if a < b {
        lemma_pow256_increases(a, (b - 1) as nat);
        assert(pow256((b - 1) as nat) <= 256 * pow256((b - 1) as nat)) by (nonlinear_arith)
            requires
                pow256((b - 1) as nat) >= 0,
        ;
    }
}

/// The 18-decimal price held in an oracle storage word: the big-endian
/// value of the word's last sixteen bytes (of all its bytes, when the word
/// is shorter than sixteen).
pub fn price_from_storage(data: &Vec<u8>) -> (r: FixedPoint)
    ensures
        r@.raw == be_bytes_value(low_sixteen(data@)),
        r@.decimals == 18,
{
    let len = data.len();
    let begin = if len <= 16 {
        0
    } else {
        len - 16
    };
    let mut acc: u128 = 0;
    let mut j = begin;
    proof {
        assert(data@.subrange(begin as int, begin as int) =~= Seq::<u8>::empty());
    }
    while j < len
        invariant
            begin <= j <= len,
            len == data@.len(),
            len - begin <= 16,
            begin == if len <= 16 {
                0int
            } else {
                len - 16
            },
            acc == be_bytes_value(data@.subrange(begin as int, j as int)),
        decreases len - j,
    {
        proof {
            reveal_with_fuel(pow256, 18);
            lemma_be_bytes_bound(data@.subrange(begin as int, j as int));
            lemma_pow256_increases((j - begin) as nat, 15);
            assert(acc * 256 <= (pow256(15) - 1) * 256) by (nonlinear_arith)
                requires
                    0 <= acc <= pow256(15) - 1,
            ;
            assert(data@.subrange(begin as int, j as int + 1).drop_last() =~= data@.subrange(
                begin as int,
                j as int,
            ));
            assert(data@.subrange(begin as int, j as int + 1).last() == data@[j as int]);
        }
        acc = acc * 256 + (data[j] as u128);
        j = j + 1;
    }
    proof {
        assert(data@.subrange(begin as int, len as int) =~= low_sixteen(data@));
    }
    FixedPoint::from_u128(acc, 18)
}

} // verus!
