//! Points of the BN254 curve in the encoding that proofs and keys use.
//!
//! A point of the first group takes 64 bytes, two big-endian coordinates of
//! 32 bytes each; a point of the second group takes 128 bytes, four such
//! words. The arithmetic itself is that of `ark_ec`, `ark_ff` and `ark_bn254`,
//! and the test whether bytes stand for a point is that of the pairing
//! primitives of `solana_program`, which `anchor_lang` hands on.
//!
//! Every word of a point must be a field element. The pairing primitives read
//! the two highest bits of the second coordinate as flags and drop them, so
//! that without this two encodings would stand for one point.

use crate::endian::{
    be_bytes,
    be_value,
    change_endianness,
    le_value,
    lemma_be_bytes_of_value,
    lemma_be_value_order,
    lemma_le_value_of_reverse,
    lemma_swap_endianness_block,
};
use vstd::prelude::*;

verus! {

/// Bytes of a point of the first group.
pub const G1_LEN: usize = 64;

/// Bytes of a point of the second group.
pub const G2_LEN: usize = 128;

/// The prime number of elements of the field over which the curve is defined,
/// most significant byte first. In decimal it is
/// 21888242871839275222246405745257275088696311157297823662689037894645226208583.
pub const BASE_FIELD_MODULUS: [u8; 32] = [
    0x30, 0x64, 0x4e, 0x72, 0xe1, 0x31, 0xa0, 0x29,
    0xb8, 0x50, 0x45, 0xb6, 0x81, 0x81, 0x58, 0x5d,
    0x97, 0x81, 0x6a, 0x91, 0x68, 0x71, 0xca, 0x8d,
    0x3c, 0x20, 0x8c, 0x16, 0xd8, 0x7c, 0xfd, 0x47,
];

/// The prime number of elements of the field over which the curve is defined.
pub open spec fn base_field_modulus() -> nat {
    be_value(BASE_FIELD_MODULUS@)
}

/// Whether the 32 bytes of `bytes` from `start` on denote a field element.
pub open spec fn word_in_field(bytes: Seq<u8>, start: int) -> bool {
    be_value(bytes.subrange(start, start + 32)) < base_field_modulus()
}

/// The additive inverse of the field element `y`.
pub open spec fn field_neg(y: nat) -> nat {
    if y == 0 {
        0
    } else {
        (base_field_modulus() - y) as nat
    }
}

/// Whether `point` has the length of a point of the first group and both of
/// its coordinates are field elements.
pub open spec fn has_field_coordinates(point: Seq<u8>) -> bool {
    &&& point.len() == 64
    &&& word_in_field(point, 0)
    &&& word_in_field(point, 32)
}

/// Whether `point` has the length of a point of the second group and all four
/// words of its coordinates are field elements.
pub open spec fn has_extension_coordinates(point: Seq<u8>) -> bool {
    &&& point.len() == 128
    &&& word_in_field(point, 0)
    &&& word_in_field(point, 32)
    &&& word_in_field(point, 64)
    &&& word_in_field(point, 96)
}

/// The encoding of the group inverse of the encoded point: the same first
/// coordinate, and the field inverse of the second. There is none where a
/// coordinate is no field element.
pub open spec fn negated_g1(point: Seq<u8>) -> Option<Seq<u8>> {
    if has_field_coordinates(point) {
        Some(
            point.subrange(0, 32) + be_bytes(field_neg(be_value(point.subrange(32, 64))), 32),
        )
    } else {
        None
    }
}

/// Whether `alt_bn128_addition` of `solana_program` returns `Ok` on `input`.
pub uninterp spec fn bn128_addition_accepts(input: Seq<u8>) -> bool;

/// Whether `alt_bn128_pairing` of `solana_program` returns `Ok` on `input`.
pub uninterp spec fn bn128_pairing_accepts(input: Seq<u8>) -> bool;

/// Sixty-four zero bytes: the encoding of the neutral element of the first
/// group.
pub open spec fn g1_identity() -> Seq<u8> {
    Seq::new(64, |i: int| 0u8)
}

/// Whether `point` encodes a point of the first group: its coordinates are
/// field elements, and the pairing primitives take it.
pub open spec fn is_g1_point(point: Seq<u8>) -> bool {
    has_field_coordinates(point) && bn128_addition_accepts(point)
}

/// Whether `point` encodes a point of the second group: the words of its
/// coordinates are field elements, and the pairing primitives take it beside
/// the neutral element of the first group.
pub open spec fn is_g2_point(point: Seq<u8>) -> bool {
    has_extension_coordinates(point) && bn128_pairing_accepts(g1_identity() + point)
}

/// Whether both coordinates of a point in little-endian encoding are field
/// elements: the first 32 bytes and the next 32, each read with its least
/// significant byte first.
pub open spec fn le_coordinates_in_field(encoded: Seq<u8>) -> bool {
    &&& le_value(encoded.subrange(0, 32)) < base_field_modulus()
    &&& le_value(encoded.subrange(32, 64)) < base_field_modulus()
}

/// Whether `out` is the little-endian encoding of the inverse of the point
/// that `encoded` stands for: 65 bytes, the same first coordinate, the field
/// inverse of the second, and a zero flag byte.
pub open spec fn le_encodes_inverse(out: Seq<u8>, encoded: Seq<u8>) -> bool {
    &&& out.len() == 65
    &&& out.subrange(0, 32) == encoded.subrange(0, 32)
    &&& le_value(out.subrange(32, 64)) == field_neg(le_value(encoded.subrange(32, 64)))
    &&& out[64] == 0
}

/// Negates a point with `Neg::neg` of `ark_ec`'s `GroupAffine` over
/// `ark_bn254::g1::Parameters`, which `FromBytes::read` of `ark_ff` decodes from
/// `encoded` and `ToBytes::write` encodes again. The encoding is two
/// little-endian coordinates of 32 bytes and a flag byte, zero for a point that
/// is not the one at infinity.
///
/// Trusted: decoding fails exactly where a coordinate is not below the field's
/// modulus; it does not ask whether the point lies on the curve. The result
/// keeps the first coordinate and the flag, and its second coordinate is the
/// field inverse of the given one.
#[verifier::external_body]
fn ark_negate_g1(encoded: &Vec<u8>) -> (r: Option<Vec<u8>>)
    requires
        encoded@.len() == 65,
        encoded@[64] == 0,
    ensures
        r is Some <==> le_coordinates_in_field(encoded@),
        r matches Some(out) ==> le_encodes_inverse(out@, encoded@),
{
    let point = <ark_ec::short_weierstrass_jacobian::GroupAffine<
        ark_bn254::g1::Parameters,
    > as ark_ff::bytes::FromBytes>::read(&encoded[..]).ok()?;
    let mut out = vec![0u8; 65];
    ark_ff::bytes::ToBytes::write(&std::ops::Neg::neg(point), &mut out[..]).ok()?;
    Some(out)
}

/// Asks `alt_bn128_addition` of `solana_program` whether it can add the point
/// that `point` encodes to the neutral element.
///
/// Trusted: the answer is a function of the bytes alone.
#[verifier::external_body]
fn bn128_addition_is_ok(point: &[u8; 64]) -> (ok: bool)
    ensures
        ok == bn128_addition_accepts(point@),
{
    anchor_lang::solana_program::alt_bn128::prelude::alt_bn128_addition(&point[..]).is_ok()
}

/// Asks `alt_bn128_pairing` of `solana_program` whether it can pair the points
/// that `input` encodes.
///
/// Trusted: the answer is a function of the bytes alone.
#[verifier::external_body]
fn bn128_pairing_is_ok(input: &Vec<u8>) -> (ok: bool)
    ensures
        ok == bn128_pairing_accepts(input@),
{
    anchor_lang::solana_program::alt_bn128::prelude::alt_bn128_pairing(&input[..]).is_ok()
}

/// Copies the first 64 bytes of `bytes` into an array.
fn first_64(bytes: &Vec<u8>) -> (out: [u8; 64])
    requires
        bytes@.len() >= 64,
    ensures
        out@ == bytes@.subrange(0, 64),
{
    let mut out = [0u8; 64];
    let mut i: usize = 0;
    while i < 64
        invariant
            i <= 64,
            bytes@.len() >= 64,
            forall|j: int| 0 <= j < i ==> out@[j] == bytes@[j],
        decreases 64 - i,
    {
        out[i] = bytes[i];
        i += 1;
    }
    assert(out@ =~= bytes@.subrange(0, 64));
    out
}

/// Whether the 32 bytes of `bytes` from `start` on denote a field element.
fn check_word_in_field(bytes: &[u8], start: usize) -> (ok: bool)
    requires
        start + 32 <= bytes@.len(),
    ensures
        ok == word_in_field(bytes@, start as int),
{
    let ghost word = bytes@.subrange(start as int, start + 32);
    let len = bytes.len();
    let mut i: usize = 0;
    while i < 32
        invariant
            i <= 32,
            start + 32 <= len == bytes@.len(),
            word == bytes@.subrange(start as int, start + 32),
            forall|j: int| 0 <= j < i ==> word[j] == BASE_FIELD_MODULUS@[j],
        decreases 32 - i,
    {
        let byte = bytes[start + i];
        let limit = BASE_FIELD_MODULUS[i];
        if byte < limit {
            proof {
                lemma_be_value_order(word, BASE_FIELD_MODULUS@, i as int);
            }
            return true;
        }
        if byte > limit {
            proof {
                lemma_be_value_order(BASE_FIELD_MODULUS@, word, i as int);
            }
            return false;
        }
        i += 1;
    }
    assert(word =~= BASE_FIELD_MODULUS@);
    false
}

/// Whether `point` encodes a point of the first group.
pub fn check_g1(point: &[u8; 64]) -> (ok: bool)
    ensures
        ok == is_g1_point(point@),
{
    check_word_in_field(point.as_slice(), 0) && check_word_in_field(point.as_slice(), 32)
        && bn128_addition_is_ok(point)
}

/// Whether `point` encodes a point of the second group.
pub fn check_g2(point: &[u8; 128]) -> (ok: bool)
    ensures
        ok == is_g2_point(point@),
{
    if !(check_word_in_field(point.as_slice(), 0) && check_word_in_field(point.as_slice(), 32)
        && check_word_in_field(point.as_slice(), 64) && check_word_in_field(
        point.as_slice(),
        96,
    )) {
        return false;
    }
    let mut input: Vec<u8> = Vec::new();
    let mut i: usize = 0;
    while i < G1_LEN
        invariant
            i <= 64,
            input@.len() == i,
            forall|j: int| 0 <= j < i ==> input@[j] == 0,
        decreases 64 - i,
    {
        input.push(0u8);
        i += 1;
    }
    let mut k: usize = 0;
    while k < G2_LEN
        invariant
            k <= 128,
            input@.len() == 64 + k,
            forall|j: int| 0 <= j < 64 ==> input@[j] == 0,
            forall|j: int| 0 <= j < k ==> input@[64 + j] == point@[j],
        decreases 128 - k,
    {
        input.push(point[k]);
        k += 1;
    }
    assert(input@ =~= g1_identity() + point@);
    bn128_pairing_is_ok(&input)
}

/// The group inverse of the point that `point` encodes, in the same encoding.
///
/// Each 32-byte word is turned to little-endian order, the point is decoded,
/// negated and encoded again, and each word is turned back. `None` where a
/// coordinate is no field element.
pub fn negate_g1(point: &[u8; 64]) -> (r: Option<[u8; 64]>)
    ensures
        match r {
            Some(negated) => negated_g1(point@) == Some(negated@),
            None => negated_g1(point@) is None,
        },
{
    let mut encoded = change_endianness(point.as_slice());
    encoded.push(0u8);
    let ghost x = point@.subrange(0, 32);
    let ghost y = point@.subrange(32, 64);
    proof {
        // The two words of `encoded` are `x` and `y` read backwards.
        lemma_swap_endianness_block(point@, 0);
        lemma_swap_endianness_block(point@, 1);
        assert(encoded@.subrange(0, 32) =~= x.reverse());
        assert(encoded@.subrange(32, 64) =~= y.reverse());
        lemma_le_value_of_reverse(x);
        lemma_le_value_of_reverse(y);
    }
    match ark_negate_g1(&encoded) {
        None => None,
        Some(full) => {
            let mut out = full;
            let ghost full_bytes = out@;
            out.truncate(G1_LEN);
            let swapped = change_endianness(out.as_slice());
            let negated = first_64(&swapped);
            proof {
                // The two words of `swapped` are `x` and the new second
                // coordinate, most significant byte first.
                let new_y = out@.subrange(32, 64).reverse();
                assert(out@.subrange(0, 32) =~= full_bytes.subrange(0, 32));
                assert(out@.subrange(32, 64) =~= full_bytes.subrange(32, 64));
                lemma_swap_endianness_block(out@, 0);
                lemma_swap_endianness_block(out@, 1);
                assert(new_y.reverse() =~= out@.subrange(32, 64));
                lemma_le_value_of_reverse(new_y);
                lemma_be_bytes_of_value(new_y);
            }
            Some(negated)
        },
    }
}

} // verus!
