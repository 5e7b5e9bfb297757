//! The verification protocol: a single linear pipeline from an 8-word proof
//! and a public input to a verdict or a failure kind.

use vstd::prelude::*;

use crate::constants::{
    prime_q, prime_q_nat, snark_scalar_field, snark_scalar_field_nat, spec_prime_q,
    spec_snark_scalar_field,
};
use crate::errors::VerifierError;
use crate::field_guard::check_below;
use crate::groth_16::{spec_negate, EcEngine, G1Point, G2Point, Groth16};
use crate::uint256::Uint256;
use vstd::array::array_index_get;

verus! {

/// The fixed public parameters a proof is checked against. `ic` holds one
/// commitment point more than the number of public inputs: `ic[0]` is the
/// constant term, `ic[1]` the coefficient of the single public input; its
/// length is fixed at construction and never mutated.
pub struct VerifyingKey {
    pub alfa1: G1Point,
    pub beta2: G2Point,
    pub gamma2: G2Point,
    pub delta2: G2Point,
    pub ic: [G1Point; 2],
}

/// The three curve points a prover submits.
pub struct Proof {
    pub a: G1Point,
    pub b: G2Point,
    pub c: G1Point,
}

/// The proof's first point: `(words[0], words[1])`.
pub open spec fn spec_proof_a(words: [Uint256; 8]) -> G1Point {
    G1Point { x: words[0], y: words[1] }
}

/// The proof's extension-field point, interleaved:
/// `X = [words[2], words[3]]`, `Y = [words[4], words[5]]`.
pub open spec fn spec_proof_b(words: [Uint256; 8]) -> G2Point {
    G2Point { x: [words[2], words[3]], y: [words[4], words[5]] }
}

/// The proof's third point: `(words[6], words[7])`.
pub open spec fn spec_proof_c(words: [Uint256; 8]) -> G1Point {
    G1Point { x: words[6], y: words[7] }
}

/// Every one of the eight proof words lies strictly below the base-field
/// modulus.
pub open spec fn proof_coordinates_in_field(words: [Uint256; 8]) -> bool {
    forall|i: int| 0 <= i < 8 ==> (#[trigger] words[i]).as_nat() < prime_q_nat()
}

/// The outcome of one verification call, as a function of the engine, the
/// proof words and the public input: either a verdict, or the one failure
/// kind raised by the first failing pipeline step.
pub open spec fn spec_verify_proof<E: EcEngine>(
    engine: E,
    words: [Uint256; 8],
    input: Uint256,
) -> Result<bool, VerifierError> {
    if !proof_coordinates_in_field(words) {
        Err(VerifierError::PrimeVerification)
    } else if input.as_nat() >= snark_scalar_field_nat() {
        Err(VerifierError::OutsideField)
    } else {
        let vk = spec_verifying_key();
        match engine.spec_scalar_mul(vk.ic[1], input) {
            None => Err(VerifierError::ScalarMulti),
            Some(scalarmul) => match engine.spec_add(vk.ic[0], scalarmul) {
                None => Err(VerifierError::Plus),
                Some(vk_x) => match engine.spec_pairing(
                    spec_negate(spec_proof_a(words)),
                    spec_proof_b(words),
                    vk.alfa1,
                    vk.beta2,
                    vk_x,
                    vk.gamma2,
                    spec_proof_c(words),
                    vk.delta2,
                ) {
                    None => Err(VerifierError::Pairing),
                    Some(verdict) => Ok(verdict),
                },
            },
        }
    }
}

/// The compiled-in verifying key.
pub open spec fn spec_verifying_key() -> VerifyingKey {
    VerifyingKey {
        alfa1: G1Point {
            x: Uint256 {
                hi: 0x24ae53642c29b6efce79420869c6340d,
                lo: 0xb9b1f7712fd866f1bbf35946305b2635,
            },
            y: Uint256 {
                hi: 0x12cd916ee6df3be47ba80771d26b548b,
                lo: 0xb6cb9d82e6202c55e33778fbfd66fdcf,
            },
        },
        beta2: G2Point {
            x: [
                Uint256 {
                    hi: 0x16a3fa7f3ba4b62902a1071850ba66d8,
                    lo: 0x36173046bc74b8e6d6d0024ec59c6425,
                },
                Uint256 {
                    hi: 0x0e25c9745c764d34ca6437662a44d291,
                    lo: 0xcfaa0b68f9cfc3da1d83101411de9224,
                },
            ],
            y: [
                Uint256 {
                    hi: 0x2b63b813ec7bcf3f14d52f9baa1ca281,
                    lo: 0xa8bb0711b61ef8629759557324e58ee9,
                },
                Uint256 {
                    hi: 0x1f2e595ff447deb40eb05d0fb2291815,
                    lo: 0x315c58c2c2a9ef82392e43a7c955fc87,
                },
            ],
        },
        gamma2: G2Point {
            x: [
                Uint256 {
                    hi: 0x198e9393920d483a7260bfb731fb5d25,
                    lo: 0xf1aa493335a9e71297e485b7aef312c2,
                },
                Uint256 {
                    hi: 0x1800deef121f1e76426a00665e5c4479,
                    lo: 0x674322d4f75edadd46debd5cd992f6ed,
                },
            ],
            y: [
                Uint256 {
                    hi: 0x090689d0585ff075ec9e99ad690c3395,
                    lo: 0xbc4b313370b38ef355acdadcd122975b,
                },
                Uint256 {
                    hi: 0x12c85ea5db8c6deb4aab71808dcb408f,
                    lo: 0xe3d1e7690c43d37b4ce6cc0166fa7daa,
                },
            ],
        },
        delta2: G2Point {
            x: [
                Uint256 {
                    hi: 0x26de32b1059f909a8a72bf52591e62a8,
                    lo: 0x429cf6253c01080c0a13f2d0a95dbd76,
                },
                Uint256 {
                    hi: 0x00df0accb4d5386f29edf41d7602a672,
                    lo: 0x21ed61923c7756d3f07a38f3d5fe44f6,
                },
            ],
            y: [
                Uint256 {
                    hi: 0x0f326dd35893e22c4fd6218b66f4c984,
                    lo: 0x0cf719255b4f79ca7d4a96927b2901f9,
                },
                Uint256 {
                    hi: 0x2d13e4cf35c4a32a4c86b966dd4e7566,
                    lo: 0x157f5c5b14732b800ac9ac448f042ebb,
                },
            ],
        },
        ic: [
            G1Point {
                x: Uint256 {
                    hi: 0x14d5c8970c35cc186edc195b12a83bbf,
                    lo: 0xff9facdc5f11318c8f339f15170e4e4f,
                },
                y: Uint256 {
                    hi: 0x29bcfcc93a5d047633daed0ff534d553,
                    lo: 0xed82dc438b05300efc755e1bee2bb3d6,
                },
            },
            G1Point {
                x: Uint256 {
                    hi: 0x0d6014824a7678ccf42e77fc3188c9b7,
                    lo: 0xf4a0ebcc5fe3ad4fe09d8581382e425f,
                },
                y: Uint256 {
                    hi: 0x1bfe10df894ccd36a9ada8be98ad5aa3,
                    lo: 0xd9057d596e9bde3a99bb0312ecb0a0c3,
                },
            },
        ],
    }
}

/// A proof with any word at or above the base-field modulus is rejected
/// with `PrimeVerification`, whatever the engine would answer: the outcome
/// is the same under every engine, so no engine request can have mattered.
pub proof fn lemma_oversized_coordinate_rejected<E: EcEngine>(
    engine: E,
    other: E,
    words: [Uint256; 8],
    input: Uint256,
)
    requires
        exists|i: int| 0 <= i < 8 && (#[trigger] words[i]).as_nat() >= prime_q_nat(),
    ensures
        spec_verify_proof(engine, words, input) == Err::<bool, VerifierError>(
            VerifierError::PrimeVerification,
        ),
        spec_verify_proof(engine, words, input) == spec_verify_proof(other, words, input),
{
}

/// With all words in the base field, a public input at or above the
/// scalar-field modulus is rejected with `OutsideField`, whatever the
/// engine would answer: no scalar-multiplication or addition request can
/// have been made.
pub proof fn lemma_oversized_input_rejected<E: EcEngine>(
    engine: E,
    other: E,
    words: [Uint256; 8],
    input: Uint256,
)
    requires
        proof_coordinates_in_field(words),
        input.as_nat() >= snark_scalar_field_nat(),
    ensures
        spec_verify_proof(engine, words, input) == Err::<bool, VerifierError>(
            VerifierError::OutsideField,
        ),
        spec_verify_proof(engine, words, input) == spec_verify_proof(other, words, input),
{
}

/// When both field checks pass and the engine answers the
/// scalar-multiplication request but fails the addition request, the call
/// fails with `Plus` — whatever the proof would otherwise have been worth.
pub proof fn lemma_addition_failure_is_plus<E: EcEngine>(
    engine: E,
    words: [Uint256; 8],
    input: Uint256,
)
    requires
        proof_coordinates_in_field(words),
        input.as_nat() < snark_scalar_field_nat(),
        engine.spec_scalar_mul(spec_verifying_key().ic[1], input) is Some,
        engine.spec_add(
            spec_verifying_key().ic[0],
            engine.spec_scalar_mul(spec_verifying_key().ic[1], input).unwrap(),
        ) is None,
    ensures
        spec_verify_proof(engine, words, input) == Err::<bool, VerifierError>(VerifierError::Plus),
{
}

/// When both field checks pass and the engine answers all three requests,
/// the call returns the pairing verdict itself — success is owed, no error
/// kind can fire.
pub proof fn lemma_engine_success_yields_verdict<E: EcEngine>(
    engine: E,
    words: [Uint256; 8],
    input: Uint256,
    verdict: bool,
)
    requires
        proof_coordinates_in_field(words),
        input.as_nat() < snark_scalar_field_nat(),
        engine.spec_scalar_mul(spec_verifying_key().ic[1], input) is Some,
        engine.spec_add(
            spec_verifying_key().ic[0],
            engine.spec_scalar_mul(spec_verifying_key().ic[1], input).unwrap(),
        ) is Some,
        engine.spec_pairing(
            spec_negate(spec_proof_a(words)),
            spec_proof_b(words),
            spec_verifying_key().alfa1,
            spec_verifying_key().beta2,
            engine.spec_add(
                spec_verifying_key().ic[0],
                engine.spec_scalar_mul(spec_verifying_key().ic[1], input).unwrap(),
            ).unwrap(),
            spec_verifying_key().gamma2,
            spec_proof_c(words),
            spec_verifying_key().delta2,
        ) == Some(verdict),
    ensures
        spec_verify_proof(engine, words, input) == Ok::<bool, VerifierError>(verdict),
{
}

/// The protocol's entry points.
pub struct Verifier {}

impl Verifier {
    /// Supplies the fixed verifying key.
    #[allow(non_snake_case)]
    pub fn verifyingKey() -> (r: Result<VerifyingKey, VerifierError>)
        ensures
            r == Ok::<VerifyingKey, VerifierError>(spec_verifying_key()),
    {
        Ok(
            VerifyingKey {
                alfa1: G1Point {
                    x: Uint256 {
                        hi: 0x24ae53642c29b6efce79420869c6340d,
                        lo: 0xb9b1f7712fd866f1bbf35946305b2635,
                    },
                    y: Uint256 {
                        hi: 0x12cd916ee6df3be47ba80771d26b548b,
                        lo: 0xb6cb9d82e6202c55e33778fbfd66fdcf,
                    },
                },
                beta2: G2Point {
                    x: [
                        Uint256 {
                            hi: 0x16a3fa7f3ba4b62902a1071850ba66d8,
                            lo: 0x36173046bc74b8e6d6d0024ec59c6425,
                        },
                        Uint256 {
                            hi: 0x0e25c9745c764d34ca6437662a44d291,
                            lo: 0xcfaa0b68f9cfc3da1d83101411de9224,
                        },
                    ],
                    y: [
                        Uint256 {
                            hi: 0x2b63b813ec7bcf3f14d52f9baa1ca281,
                            lo: 0xa8bb0711b61ef8629759557324e58ee9,
                        },
                        Uint256 {
                            hi: 0x1f2e595ff447deb40eb05d0fb2291815,
                            lo: 0x315c58c2c2a9ef82392e43a7c955fc87,
                        },
                    ],
                },
                gamma2: G2Point {
                    x: [
                        Uint256 {
                            hi: 0x198e9393920d483a7260bfb731fb5d25,
                            lo: 0xf1aa493335a9e71297e485b7aef312c2,
                        },
                        Uint256 {
                            hi: 0x1800deef121f1e76426a00665e5c4479,
                            lo: 0x674322d4f75edadd46debd5cd992f6ed,
                        },
                    ],
                    y: [
                        Uint256 {
                            hi: 0x090689d0585ff075ec9e99ad690c3395,
                            lo: 0xbc4b313370b38ef355acdadcd122975b,
                        },
                        Uint256 {
                            hi: 0x12c85ea5db8c6deb4aab71808dcb408f,
                            lo: 0xe3d1e7690c43d37b4ce6cc0166fa7daa,
                        },
                    ],
                },
                delta2: G2Point {
                    x: [
                        Uint256 {
                            hi: 0x26de32b1059f909a8a72bf52591e62a8,
                            lo: 0x429cf6253c01080c0a13f2d0a95dbd76,
                        },
                        Uint256 {
                            hi: 0x00df0accb4d5386f29edf41d7602a672,
                            lo: 0x21ed61923c7756d3f07a38f3d5fe44f6,
                        },
                    ],
                    y: [
                        Uint256 {
                            hi: 0x0f326dd35893e22c4fd6218b66f4c984,
                            lo: 0x0cf719255b4f79ca7d4a96927b2901f9,
                        },
                        Uint256 {
                            hi: 0x2d13e4cf35c4a32a4c86b966dd4e7566,
                            lo: 0x157f5c5b14732b800ac9ac448f042ebb,
                        },
                    ],
                },
                ic: [
                    G1Point {
                        x: Uint256 {
                            hi: 0x14d5c8970c35cc186edc195b12a83bbf,
                            lo: 0xff9facdc5f11318c8f339f15170e4e4f,
                        },
                        y: Uint256 {
                            hi: 0x29bcfcc93a5d047633daed0ff534d553,
                            lo: 0xed82dc438b05300efc755e1bee2bb3d6,
                        },
                    },
                    G1Point {
                        x: Uint256 {
                            hi: 0x0d6014824a7678ccf42e77fc3188c9b7,
                            lo: 0xf4a0ebcc5fe3ad4fe09d8581382e425f,
                        },
                        y: Uint256 {
                            hi: 0x1bfe10df894ccd36a9ada8be98ad5aa3,
                            lo: 0xd9057d596e9bde3a99bb0312ecb0a0c3,
                        },
                    },
                ],
            },
        )
    }

    /// Splits the eight proof words into the three submitted points.
    pub fn decode_proof(words: &[Uint256; 8]) -> (r: Proof)
        ensures
            r.a == spec_proof_a(*words),
            r.b == spec_proof_b(*words),
            r.c == spec_proof_c(*words),
    {
        Proof {
            a: G1Point { x: words[0], y: words[1] },
            b: G2Point { x: [words[2], words[3]], y: [words[4], words[5]] },
            c: G1Point { x: words[6], y: words[7] },
        }
    }

    /// Decides whether the submitted proof is valid for the given public
    /// input, under the fixed verifying key and the given engine.
    #[allow(non_snake_case)]
    pub fn verifyProof<E: EcEngine>(engine: &E, words: [Uint256; 8], input: Uint256) -> (r: Result<
        bool,
        VerifierError,
    >)
        ensures
            r == spec_verify_proof(*engine, words, input),
    {
        let q = prime_q();
        let mut i: usize = 0;
        while i < 8
            invariant
                i <= 8,
                q == spec_prime_q(),
                forall|j: int| 0 <= j < i ==> (#[trigger] words[j]).as_nat() < prime_q_nat(),
            decreases 8 - i,
        {
            match check_below(array_index_get(&words, i), &q, VerifierError::PrimeVerification) {
                Ok(()) => {},
                Err(e) => {
                    assert(words[i as int].as_nat() >= prime_q_nat());
                    return Err(e);
                },
            }
            i += 1;
        }
        assert(proof_coordinates_in_field(words));

        let submitted = Verifier::decode_proof(&words);

        let verifying_key = match Verifier::verifyingKey() {
            Ok(vk) => vk,
            Err(e) => {
                return Err(e);
            },
        };

        let r = snark_scalar_field();
        match check_below(&input, &r, VerifierError::OutsideField) {
            Ok(()) => {},
            Err(e) => {
                return Err(e);
            },
        }

        let scalarmul = match Groth16::scalar_mul(engine, array_index_get(&verifying_key.ic, 1), &input) {
            Ok(p) => p,
            Err(e) => {
                return Err(e);
            },
        };
        let vk_x = match Groth16::plus(engine, array_index_get(&verifying_key.ic, 0), &scalarmul) {
            Ok(p) => p,
            Err(e) => {
                return Err(e);
            },
        };

        Groth16::pairing(
            engine,
            Groth16::negate(submitted.a),
            submitted.b,
            verifying_key.alfa1,
            verifying_key.beta2,
            vk_x,
            verifying_key.gamma2,
            submitted.c,
            verifying_key.delta2,
        )
    }
}

} // verus!
