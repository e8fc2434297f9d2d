//! Byte-level building blocks: zero padding, big-endian encodings, and
//! buffer concatenation.

use vstd::prelude::*;

verus! {

/// A run of `n` zero bytes.
pub open spec fn zeros(n: nat) -> Seq<u8> {
    Seq::new(n, |i: int| 0u8)
}

/// Big-endian 16-byte representation of a 128-bit value.
pub open spec fn be16(x: u128) -> Seq<u8> {
    vstd::bytes::spec_u128_to_le_bytes(x).reverse()
}

/// Writes a 128-bit value as its 16 big-endian bytes.
pub fn u128_to_be_bytes(x: u128) -> (r: Vec<u8>)
    ensures
        r@ == be16(x),
        r@.len() == 16,
{
    let le = vstd::bytes::u128_to_le_bytes(x);
    let mut r: Vec<u8> = Vec::new();
    let mut i: usize = 0;
    while i < 16
        invariant
            le@ == vstd::bytes::spec_u128_to_le_bytes(x),
            le@.len() == 16,
            0 <= i <= 16,
            r@ == be16(x).take(i as int),
        decreases 16 - i,
    {
        r.push(le[15 - i]);
        assert(be16(x).take(i + 1) =~= be16(x).take(i as int).push(le@[15 - i as int]));
        i = i + 1;
    }
    assert(r@ =~= be16(x));
    r
}

/// A big-endian image is 16 bytes long.
pub proof fn lemma_be16_len(x: u128)
    ensures
        be16(x).len() == 16,
{
    vstd::bytes::lemma_auto_spec_u128_to_from_le_bytes();
}

/// Equal big-endian images come only from equal values.
pub proof fn lemma_be16_injective(a: u128, b: u128)
    requires
        be16(a) == be16(b),
    ensures
        a == b,
{
    vstd::bytes::lemma_auto_spec_u128_to_from_le_bytes();
    let la = vstd::bytes::spec_u128_to_le_bytes(a);
    let lb = vstd::bytes::spec_u128_to_le_bytes(b);
    assert forall|i: int| 0 <= i < 16 implies la[i] == lb[i] by {
        assert(la.reverse()[15 - i] == la[i]);
        assert(lb.reverse()[15 - i] == lb[i]);
    }
    assert(la =~= lb);
    assert(vstd::bytes::spec_u128_from_le_bytes(la) == a);
    assert(vstd::bytes::spec_u128_from_le_bytes(lb) == b);
}

/// Produces `n` zero bytes.
pub fn zero_bytes(n: usize) -> (r: Vec<u8>)
    ensures
        r@ == zeros(n as nat),
{
    let mut r: Vec<u8> = Vec::new();
    let mut i: usize = 0;
    while i < n
        invariant
            0 <= i <= n,
            r@ == zeros(i as nat),
        decreases n - i,
    {
        r.push(0u8);
        assert(r@ =~= zeros((i + 1) as nat));
        i = i + 1;
    }
    r
}

/// Copies a byte slice into a fresh buffer.
pub fn copy_bytes(src: &[u8]) -> (r: Vec<u8>)
    ensures
        r@ == src@,
{
    let mut r: Vec<u8> = Vec::new();
    push_all(&mut r, src);
    assert(r@ =~= src@);
    r
}

/// Appends all of `src` to `dst`.
pub fn push_all(dst: &mut Vec<u8>, src: &[u8])
    ensures
        final(dst)@ == old(dst)@ + src@,
{
    let mut i: usize = 0;
    while i < src.len()
        invariant
            0 <= i <= src@.len(),
            dst@ == old(dst)@ + src@.take(i as int),
        decreases src@.len() - i,
    {
        dst.push(src[i]);
        assert(dst@ =~= old(dst)@ + src@.take(i + 1));
        i = i + 1;
    }
    assert(dst@ =~= old(dst)@ + src@);
}

} // verus!
