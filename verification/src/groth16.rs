//! Verification of Groth16 proofs over BN254.
//!
//! A proof is three points, `proof_a`, `proof_b` and `proof_c`; it is checked
//! against the verifying key of a circuit and an ordered list of public input
//! words. The pairing check is that of `groth16_solana`, which wants the inverse
//! of `proof_a` in place of `proof_a`: the library negates the point first.

use crate::curve::{check_g1, check_g2, is_g1_point, is_g2_point, negate_g1, negated_g1};
use groth16_solana::groth16::{Groth16Verifier, Groth16Verifyingkey};
use vstd::prelude::*;

verus! {

/// A verifying key as plain byte strings: four points of the key and one point
/// for the constant term and for each public input.
pub struct VerifyingKeyView {
    pub alpha_g1: Seq<u8>,
    pub beta_g2: Seq<u8>,
    pub gamma_g2: Seq<u8>,
    pub delta_g2: Seq<u8>,
    pub ic: Seq<Seq<u8>>,
}

impl VerifyingKeyView {
    /// Every part of the key is a point of its group, and the point for the
    /// constant term is there.
    pub open spec fn well_formed(self) -> bool {
        &&& is_g1_point(self.alpha_g1)
        &&& is_g2_point(self.beta_g2)
        &&& is_g2_point(self.gamma_g2)
        &&& is_g2_point(self.delta_g2)
        &&& self.ic.len() >= 1
        &&& forall|i: int| 0 <= i < self.ic.len() ==> is_g1_point(#[trigger] self.ic[i])
    }

    /// The number of public input words that the key's circuit has.
    pub open spec fn public_input_count(self) -> int {
        self.ic.len() - 1
    }
}

/// The byte strings of a list of 32-byte words.
pub open spec fn words(list: Seq<[u8; 32]>) -> Seq<Seq<u8>> {
    list.map_values(|word: [u8; 32]| word@)
}

/// The byte strings of a list of encoded points.
pub open spec fn points(list: Seq<[u8; 64]>) -> Seq<Seq<u8>> {
    list.map_values(|point: [u8; 64]| point@)
}

/// The verifying key of one circuit. Every value of this type is well formed.
pub struct VerifyingKey {
    alpha_g1: [u8; 64],
    beta_g2: [u8; 128],
    gamma_g2: [u8; 128],
    delta_g2: [u8; 128],
    ic: Vec<[u8; 64]>,
}

impl View for VerifyingKey {
    type V = VerifyingKeyView;

    closed spec fn view(&self) -> VerifyingKeyView {
        VerifyingKeyView {
            alpha_g1: self.alpha_g1@,
            beta_g2: self.beta_g2@,
            gamma_g2: self.gamma_g2@,
            delta_g2: self.delta_g2@,
            ic: points(self.ic@),
        }
    }
}

/// Whether `Groth16Verifier::new` of `groth16_solana` takes these proof points,
/// public inputs and key, and `verify` on the verifier it returns gives
/// `Ok(true)`.
pub uninterp spec fn groth16_accepts(
    proof_a: Seq<u8>,
    proof_b: Seq<u8>,
    proof_c: Seq<u8>,
    public_inputs: Seq<Seq<u8>>,
    alpha_g1: Seq<u8>,
    beta_g2: Seq<u8>,
    gamma_g2: Seq<u8>,
    delta_g2: Seq<u8>,
    ic: Seq<Seq<u8>>,
) -> bool;

/// Whether the proof is accepted for the public inputs under the key: the
/// inverse of `proof_a` exists, the three points that go into the pairing
/// check are points of their groups, and the check holds.
pub open spec fn proof_accepted(
    proof_a: Seq<u8>,
    proof_b: Seq<u8>,
    proof_c: Seq<u8>,
    public_inputs: Seq<Seq<u8>>,
    key: VerifyingKeyView,
) -> bool {
    match negated_g1(proof_a) {
        Some(negated) => {
            &&& is_g1_point(negated)
            &&& is_g2_point(proof_b)
            &&& is_g1_point(proof_c)
            &&& groth16_accepts(
                negated,
                proof_b,
                proof_c,
                public_inputs,
                key.alpha_g1,
                key.beta_g2,
                key.gamma_g2,
                key.delta_g2,
                key.ic,
            )
        },
        None => false,
    }
}

/// Builds a `Groth16Verifier` of `groth16_solana` with `Groth16Verifier::new`
/// and runs its `verify`. An error of either counts as a refusal.
///
/// Trusted: the answer is a function of the bytes alone, and `new` refuses a
/// list of public inputs that is not one shorter than the key's list of points.
/// `verify` unwraps what `alt_bn128_multiplication` and `alt_bn128_addition`
/// return for the points of `ic`, and what `alt_bn128_pairing` returns for the
/// three points of the proof and the four other points of the key. Each of them
/// fails only on bytes that it does not take for a point: the `requires` keeps
/// such bytes out.
#[verifier::external_body]
fn groth16_verify(
    proof_a: &[u8; 64],
    proof_b: &[u8; 128],
    proof_c: &[u8; 64],
    public_inputs: &Vec<[u8; 32]>,
    key: &VerifyingKey,
) -> (ok: bool)
    requires
        is_g1_point(proof_a@),
        is_g2_point(proof_b@),
        is_g1_point(proof_c@),
        key@.well_formed(),
    ensures
        ok == groth16_accepts(
            proof_a@,
            proof_b@,
            proof_c@,
            words(public_inputs@),
            key@.alpha_g1,
            key@.beta_g2,
            key@.gamma_g2,
            key@.delta_g2,
            key@.ic,
        ),
        ok ==> public_inputs@.len() == key@.public_input_count(),
{
    let inputs: Vec<&[u8]> = public_inputs.iter().map(|word| &word[..]).collect();
    let outside_key = Groth16Verifyingkey {
        nr_pubinputs: key.ic.len(),
        vk_alpha_g1: key.alpha_g1,
        vk_beta_g2: key.beta_g2,
        vk_gamme_g2: key.gamma_g2,
        vk_delta_g2: key.delta_g2,
        vk_ic: &key.ic[..],
    };
    match Groth16Verifier::new(proof_a, proof_b, proof_c, &inputs[..], &outside_key) {
        Ok(mut verifier) => verifier.verify().unwrap_or(false),
        Err(_) => false,
    }
}

impl VerifyingKey {
    #[verifier::type_invariant]
    spec fn inv(self) -> bool {
        self@.well_formed()
    }

    /// Makes a key of its parts, if each of them is a point of its group and
    /// `ic` is not empty.
    pub fn new(
        alpha_g1: [u8; 64],
        beta_g2: [u8; 128],
        gamma_g2: [u8; 128],
        delta_g2: [u8; 128],
        ic: Vec<[u8; 64]>,
    ) -> (r: Option<VerifyingKey>)
        ensures
            match r {
                Some(key) => key@.well_formed() && key@ == (VerifyingKeyView {
                    alpha_g1: alpha_g1@,
                    beta_g2: beta_g2@,
                    gamma_g2: gamma_g2@,
                    delta_g2: delta_g2@,
                    ic: points(ic@),
                }),
                None => !(VerifyingKeyView {
                    alpha_g1: alpha_g1@,
                    beta_g2: beta_g2@,
                    gamma_g2: gamma_g2@,
                    delta_g2: delta_g2@,
                    ic: points(ic@),
                }).well_formed(),
            },
    {
        if ic.len() == 0 || !check_g1(&alpha_g1) || !check_g2(&beta_g2) || !check_g2(&gamma_g2)
            || !check_g2(&delta_g2) {
            return None;
        }
        let mut i: usize = 0;
        while i < ic.len()
            invariant
                i <= ic@.len(),
                forall|j: int| 0 <= j < i ==> is_g1_point(#[trigger] points(ic@)[j]),
            decreases ic@.len() - i,
        {
            if !check_g1(&ic[i]) {
                assert(!is_g1_point(points(ic@)[i as int]));
                return None;
            }
            i += 1;
        }
        Some(VerifyingKey { alpha_g1, beta_g2, gamma_g2, delta_g2, ic })
    }

    /// The number of public input words that the key's circuit has.
    pub fn public_input_count(&self) -> (n: usize)
        ensures
            n == self@.public_input_count(),
            self@.well_formed(),
    {
        proof {
            use_type_invariant(self);
        }
        self.ic.len() - 1
    }
}

/// Checks a proof against a verifying key and an ordered list of public input
/// words.
///
/// `proof_a` is negated before the pairing check. A point that cannot be
/// decoded, or that is no point of its group, makes the proof fail, as does a
/// list of public inputs of another length than the key is for.
pub fn verify(
    proof_a: &[u8; 64],
    proof_b: &[u8; 128],
    proof_c: &[u8; 64],
    public_inputs: &Vec<[u8; 32]>,
    key: &VerifyingKey,
) -> (ok: bool)
    ensures
        ok == proof_accepted(proof_a@, proof_b@, proof_c@, words(public_inputs@), key@),
        ok ==> public_inputs@.len() == key@.public_input_count(),
{
    proof {
        use_type_invariant(key);
    }
    match negate_g1(proof_a) {
        None => false,
        Some(negated) => {
            if !check_g1(&negated) || !check_g2(proof_b) || !check_g1(proof_c) {
                false
            } else {
                groth16_verify(&negated, proof_b, proof_c, public_inputs, key)
            }
        },
    }
}

} // verus!
