//! Little-endian decoding of unsigned integers of at most sixteen bytes.
use vstd::prelude::*;

verus! {

/// `256` raised to the power `n`.
pub open spec fn pow256(n: nat) -> nat
    decreases n,
{
    if n == 0 {
        1
    } else {
        256 * pow256((n - 1) as nat)
    }
}

/// The unsigned integer whose little-endian encoding is `b`.
pub open spec fn le_value(b: Seq<u8>) -> nat
    decreases b.len(),
{
    if b.len() == 0 {
        0
    } else {
        b[0] as nat + 256 * le_value(b.drop_first())
    }
}

/// Sixteen bytes span exactly the range of `u128`.
pub proof fn lemma_pow256_16()
    ensures
        pow256(16) == u128::MAX as nat + 1,
{
    reveal_with_fuel(pow256, 17);
}

/// Powers of 256 grow with the exponent.
pub proof fn lemma_pow256_monotone(m: nat, n: nat)
    requires
        m <= n,
    ensures
        pow256(m) <= pow256(n),
    decreases n,
{
    if m < n {
        lemma_pow256_monotone(m, (n - 1) as nat);
    }
}

/// A value encoded in `b.len()` bytes is below `256^b.len()`.
pub proof fn lemma_le_value_bound(b: Seq<u8>)
    ensures
        le_value(b) < pow256(b.len()),
    decreases b.len(),
{
    if b.len() > 0 {
        lemma_le_value_bound(b.drop_first());
    }
}

/// Decodes `bytes` as a little-endian unsigned integer.
pub fn decode_le(bytes: &[u8]) -> (r: u128)
    requires
        bytes@.len() <= 16,
    ensures
        r == le_value(bytes@),
{
    let n: usize = bytes.len();
    let mut i: usize = n;
    let mut value: u128 = 0;
    proof {
        assert(bytes@.subrange(n as int, n as int) =~= Seq::<u8>::empty());
    }
    while i > 0
        invariant
            n == bytes@.len(),
            n <= 16,
            i <= n,
            value == le_value(bytes@.subrange(i as int, n as int)),
            value < pow256((n - i) as nat),
        decreases i,
    {
        let ghost rest = bytes@.subrange(i as int, n as int);
        i = i - 1;
        proof {
            let s = bytes@.subrange(i as int, n as int);
            assert(s.drop_first() =~= rest);
            lemma_pow256_monotone((n - i) as nat, 16);
            lemma_pow256_16();
        }
        value = value * 256 + bytes[i] as u128;
    }
    proof {
        assert(bytes@.subrange(0, n as int) =~= bytes@);
    }
    value
}

} // verus!
