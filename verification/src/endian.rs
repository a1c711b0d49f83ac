//! Byte order of 32-byte words.
//!
//! Proofs, keys and public inputs reach the library as big-endian 32-byte
//! words, while the curve arithmetic reads little-endian ones. A buffer is
//! converted by reversing each of its 32-byte blocks on its own; a shorter
//! block at the end, if there is one, is reversed as it stands.

use vstd::prelude::*;

verus! {

/// Number of bytes in one word.
pub const WORD: usize = 32;

/// The position from which block-wise reversal of a buffer of `len` bytes
/// takes the byte that it puts at position `i`.
pub open spec fn mirror(len: int, i: int) -> int {
    let start = (i / 32) * 32;
    let end = if start + 32 <= len {
        start + 32
    } else {
        len
    };
    start + (end - 1 - i)
}

/// The buffer `s` with every 32-byte block reversed.
pub open spec fn swap_endianness(s: Seq<u8>) -> Seq<u8> {
    Seq::new(s.len(), |i: int| s[mirror(s.len() as int, i)])
}

/// The number that `s` denotes when read with its first byte as the most
/// significant one.
pub open spec fn be_value(s: Seq<u8>) -> nat
    decreases s.len(),
{
    if s.len() == 0 {
        0
    } else {
        be_value(s.drop_last()) * 256 + s.last() as nat
    }
}

/// The number that `s` denotes when read with its first byte as the least
/// significant one.
pub open spec fn le_value(s: Seq<u8>) -> nat
    decreases s.len(),
{
    if s.len() == 0 {
        0
    } else {
        s.first() as nat + 256 * le_value(s.drop_first())
    }
}

/// The `len` bytes that denote `v` with the most significant byte first, for
/// `v` below `256` to the power `len`.
pub open spec fn be_bytes(v: nat, len: nat) -> Seq<u8>
    decreases len,
{
    if len == 0 {
        Seq::empty()
    } else {
        be_bytes(v / 256, (len - 1) as nat).push((v % 256) as u8)
    }
}

/// The mirror of a position lies in the same block, and mirroring twice gives
/// the position back.
pub proof fn lemma_mirror(len: int, i: int)
    requires
        0 <= i < len,
    ensures
        0 <= mirror(len, i) < len,
        mirror(len, i) / 32 == i / 32,
        mirror(len, mirror(len, i)) == i,
{
}

/// Block-wise reversal keeps the length and undoes itself.
pub proof fn lemma_swap_endianness_involution(s: Seq<u8>)
    ensures
        swap_endianness(s).len() == s.len(),
        swap_endianness(swap_endianness(s)) == s,
{
    let t = swap_endianness(s);
    assert forall|i: int| 0 <= i < s.len() implies #[trigger] swap_endianness(t)[i] == s[i] by {
        lemma_mirror(s.len() as int, i);
    }
}

/// A whole block of the reversed buffer is the reverse of that block.
pub proof fn lemma_swap_endianness_block(s: Seq<u8>, k: int)
    requires
        0 <= k,
        32 * k + 32 <= s.len(),
    ensures
        swap_endianness(s).subrange(32 * k, 32 * k + 32) == s.subrange(
            32 * k,
            32 * k + 32,
        ).reverse(),
{
    let left = swap_endianness(s).subrange(32 * k, 32 * k + 32);
    let right = s.subrange(32 * k, 32 * k + 32).reverse();
    assert forall|j: int| 0 <= j < 32 implies #[trigger] left[j] == right[j] by {
        assert((32 * k + j) / 32 == k);
    }
}

/// Reading a buffer backwards in little-endian order gives its big-endian value.
pub proof fn lemma_le_value_of_reverse(s: Seq<u8>)
    ensures
        le_value(s.reverse()) == be_value(s),
    decreases s.len(),
{
    if s.len() > 0 {
        let r = s.reverse();
        assert(r.drop_first() =~= s.drop_last().reverse());
        lemma_le_value_of_reverse(s.drop_last());
    }
}

/// From the big-endian value of a byte string and its length, `be_bytes` gives
/// the byte string back.
pub proof fn lemma_be_bytes_of_value(s: Seq<u8>)
    ensures
        be_bytes(be_value(s), s.len()) == s,
    decreases s.len(),
{
    if s.len() > 0 {
        let head = s.drop_last();
        lemma_be_bytes_of_value(head);
        let v = be_value(s);
        assert(v / 256 == be_value(head) && v % 256 == s.last() as nat);
        assert(be_bytes(v, s.len()) =~= s);
    } else {
        assert(be_bytes(be_value(s), s.len()) =~= s);
    }
}

/// Of two byte strings of one length that agree before position `i`, the one
/// with the smaller byte at `i` has the smaller big-endian value.
pub proof fn lemma_be_value_order(a: Seq<u8>, b: Seq<u8>, i: int)
    requires
        a.len() == b.len(),
        0 <= i < a.len(),
        forall|j: int| 0 <= j < i ==> a[j] == b[j],
        a[i] < b[i],
    ensures
        be_value(a) < be_value(b),
    decreases a.len(),
{
    if i == a.len() - 1 {
        assert(a.drop_last() =~= b.drop_last());
    } else {
        lemma_be_value_order(a.drop_last(), b.drop_last(), i);
    }
}

/// Reverses every 32-byte block of `bytes`, and a shorter last block as it
/// stands.
pub fn change_endianness(bytes: &[u8]) -> (out: Vec<u8>)
    ensures
        out@ == swap_endianness(bytes@),
{
    let len = bytes.len();
    let mut out: Vec<u8> = Vec::new();
    let mut start: usize = 0;
    while start < len
        invariant
            len == bytes@.len(),
            start <= len,
            start % 32 == 0 || start == len,
            out@.len() == start,
            forall|i: int| 0 <= i < start ==> out@[i] == bytes@[mirror(len as int, i)],
        decreases len - start,
    {
        let end = if len - start >= WORD {
            start + WORD
        } else {
            len
        };
        let mut next = end;
        while next > start
            invariant
                len == bytes@.len(),
                start < end <= len,
                start % 32 == 0,
                end == if start + 32 <= len {
                    start + 32
                } else {
                    len as int
                },
                start <= next <= end,
                out@.len() == start + (end - next),
                forall|i: int| 0 <= i < out@.len() ==> out@[i] == bytes@[mirror(len as int, i)],
            decreases next - start,
        {
            next -= 1;
            out.push(bytes[next]);
        }
        start = end;
    }
    assert(out@ =~= swap_endianness(bytes@));
    out
}

} // verus!
