use std::cell::Cell;

use groth16_verifier::constants::{FIELD_MODULUS_HI, PRIME_Q_LO, SNARK_SCALAR_FIELD_LO};
use groth16_verifier::errors::{EngineError, VerifierError};
use groth16_verifier::field_guard::check_below;
use groth16_verifier::groth_16::{EcEngine, G1Point, G2Point, Groth16};
use groth16_verifier::protocol::Verifier;
use groth16_verifier::uint256::Uint256;

fn word(hi: u128, lo: u128) -> Uint256 {
    Uint256 { hi, lo }
}

fn g1(x: u128, y: u128) -> G1Point {
    G1Point { x: word(0, x), y: word(0, y) }
}

fn prime_q() -> Uint256 {
    word(FIELD_MODULUS_HI, PRIME_Q_LO)
}

fn scalar_field() -> Uint256 {
    word(FIELD_MODULUS_HI, SNARK_SCALAR_FIELD_LO)
}

/// A scripted engine: answers every request with a fixed point or verdict,
/// or fails the chosen request kind, and counts the requests made.
struct MockEngine {
    fail_mul: bool,
    fail_add: bool,
    fail_pairing: bool,
    verdict: bool,
    calls: Cell<u32>,
}

impl MockEngine {
    fn answering(verdict: bool) -> MockEngine {
        MockEngine {
            fail_mul: false,
            fail_add: false,
            fail_pairing: false,
            verdict,
            calls: Cell::new(0),
        }
    }
}

impl EcEngine for MockEngine {
    // The ghost description of the engine is erased from compiled code and
    // never runs; the compiled trait still lists it.
    fn spec_add(&self, _p1: G1Point, _p2: G1Point) -> Option<G1Point> {
        unreachable!()
    }

    fn spec_scalar_mul(&self, _p: G1Point, _s: Uint256) -> Option<G1Point> {
        unreachable!()
    }

    #[allow(clippy::too_many_arguments)]
    fn spec_pairing(
        &self,
        _a1: G1Point,
        _a2: G2Point,
        _b1: G1Point,
        _b2: G2Point,
        _c1: G1Point,
        _c2: G2Point,
        _d1: G1Point,
        _d2: G2Point,
    ) -> Option<bool> {
        unreachable!()
    }

    fn add(&self, p1: &G1Point, _p2: &G1Point) -> Result<G1Point, EngineError> {
        self.calls.set(self.calls.get() + 1);
        if self.fail_add {
            Err(EngineError)
        } else {
            Ok(*p1)
        }
    }

    fn scalar_mul(&self, p: &G1Point, _s: &Uint256) -> Result<G1Point, EngineError> {
        self.calls.set(self.calls.get() + 1);
        if self.fail_mul {
            Err(EngineError)
        } else {
            Ok(*p)
        }
    }

    fn pairing_check(
        &self,
        _a1: &G1Point,
        _a2: &G2Point,
        _b1: &G1Point,
        _b2: &G2Point,
        _c1: &G1Point,
        _c2: &G2Point,
        _d1: &G1Point,
        _d2: &G2Point,
    ) -> Result<bool, EngineError> {
        self.calls.set(self.calls.get() + 1);
        if self.fail_pairing {
            Err(EngineError)
        } else {
            Ok(self.verdict)
        }
    }
}

fn small_words() -> [Uint256; 8] {
    [
        word(0, 1),
        word(0, 2),
        word(0, 3),
        word(0, 4),
        word(0, 5),
        word(0, 6),
        word(0, 7),
        word(0, 8),
    ]
}

#[test]
fn accepting_engine_yields_true() {
    let engine = MockEngine::answering(true);
    let r = Verifier::verifyProof(&engine, small_words(), word(0, 1));
    assert_eq!(r, Ok(true));
    assert_eq!(engine.calls.get(), 3);
}

#[test]
fn rejecting_engine_yields_false() {
    let engine = MockEngine::answering(false);
    let r = Verifier::verifyProof(&engine, small_words(), word(0, 1));
    assert_eq!(r, Ok(false));
}

#[test]
fn incrementing_any_coordinate_still_reaches_the_pairing() {
    for idx in 0..8 {
        let engine = MockEngine::answering(false);
        let mut words = small_words();
        words[idx] = word(words[idx].hi, words[idx].lo + 1);
        assert_eq!(Verifier::verifyProof(&engine, words, word(0, 1)), Ok(false));
        assert_eq!(engine.calls.get(), 3);
    }
}

#[test]
fn oversized_coordinate_fails_without_engine_calls() {
    let engine = MockEngine::answering(true);
    let mut words = small_words();
    words[3] = prime_q();
    let r = Verifier::verifyProof(&engine, words, word(0, 1));
    assert_eq!(r, Err(VerifierError::PrimeVerification));
    assert_eq!(engine.calls.get(), 0);
}

#[test]
fn coordinate_just_below_modulus_is_accepted() {
    let engine = MockEngine::answering(true);
    let mut words = small_words();
    words[7] = word(FIELD_MODULUS_HI, PRIME_Q_LO - 1);
    let r = Verifier::verifyProof(&engine, words, word(0, 1));
    assert_eq!(r, Ok(true));
}

#[test]
fn oversized_input_fails_without_engine_calls() {
    let engine = MockEngine::answering(true);
    let r = Verifier::verifyProof(&engine, small_words(), scalar_field());
    assert_eq!(r, Err(VerifierError::OutsideField));
    assert_eq!(engine.calls.get(), 0);
}

#[test]
fn scalar_mul_failure_is_scalar_multi() {
    let mut engine = MockEngine::answering(true);
    engine.fail_mul = true;
    let r = Verifier::verifyProof(&engine, small_words(), word(0, 1));
    assert_eq!(r, Err(VerifierError::ScalarMulti));
    assert_eq!(engine.calls.get(), 1);
}

#[test]
fn add_failure_is_plus() {
    let mut engine = MockEngine::answering(true);
    engine.fail_add = true;
    let r = Verifier::verifyProof(&engine, small_words(), word(0, 1));
    assert_eq!(r, Err(VerifierError::Plus));
    assert_eq!(engine.calls.get(), 2);
}

#[test]
fn pairing_failure_is_pairing() {
    let mut engine = MockEngine::answering(true);
    engine.fail_pairing = true;
    let r = Verifier::verifyProof(&engine, small_words(), word(0, 1));
    assert_eq!(r, Err(VerifierError::Pairing));
    assert_eq!(engine.calls.get(), 3);
}

#[test]
fn negate_fixes_identity() {
    let p = g1(0, 0);
    let n = Groth16::negate(p);
    assert_eq!(n, g1(0, 0));
}

#[test]
fn negate_subtracts_ordinate_from_modulus() {
    let p = g1(5, 1);
    let n = Groth16::negate(p);
    assert_eq!(n.x, word(0, 5));
    assert_eq!(n.y, word(FIELD_MODULUS_HI, PRIME_Q_LO - 1));
}

#[test]
fn negate_twice_is_identity_map() {
    let p = G1Point { x: word(0, 5), y: word(3, 12345) };
    assert_eq!(Groth16::negate(Groth16::negate(p)), p);
    let zero = g1(0, 0);
    assert_eq!(Groth16::negate(Groth16::negate(zero)), zero);
}

#[test]
fn negate_reduces_ordinate_first() {
    let p = G1Point { x: word(0, 5), y: prime_q() };
    let n = Groth16::negate(p);
    assert_eq!(n.y, prime_q());
}

#[test]
fn check_below_accepts_smaller_and_rejects_equal() {
    let q = prime_q();
    assert_eq!(check_below(&word(0, 0), &q, VerifierError::PrimeVerification), Ok(()));
    assert_eq!(
        check_below(&q, &q, VerifierError::PrimeVerification),
        Err(VerifierError::PrimeVerification)
    );
    assert_eq!(
        check_below(&word(FIELD_MODULUS_HI + 1, 0), &q, VerifierError::OutsideField),
        Err(VerifierError::OutsideField)
    );
}

#[test]
fn verifying_key_matches_fixed_parameters() {
    let vk = Verifier::verifyingKey().unwrap();
    assert_eq!(
        vk.alfa1.x,
        word(0x24ae53642c29b6efce79420869c6340d, 0xb9b1f7712fd866f1bbf35946305b2635)
    );
    assert_eq!(
        vk.gamma2.x[1],
        word(0x1800deef121f1e76426a00665e5c4479, 0x674322d4f75edadd46debd5cd992f6ed)
    );
    assert_eq!(
        vk.ic[1].y,
        word(0x1bfe10df894ccd36a9ada8be98ad5aa3, 0xd9057d596e9bde3a99bb0312ecb0a0c3)
    );
    assert_eq!(vk.ic.len(), 2);
}

#[test]
fn decode_proof_interleaves_the_extension_point() {
    let words = small_words();
    let p = Verifier::decode_proof(&words);
    assert_eq!(p.a.x, word(0, 1));
    assert_eq!(p.a.y, word(0, 2));
    assert_eq!(p.b.x[0], word(0, 3));
    assert_eq!(p.b.x[1], word(0, 4));
    assert_eq!(p.b.y[0], word(0, 5));
    assert_eq!(p.b.y[1], word(0, 6));
    assert_eq!(p.c.x, word(0, 7));
    assert_eq!(p.c.y, word(0, 8));
}

#[test]
fn uint256_subtraction_borrows_across_limbs() {
    let a = word(1, 0);
    let b = word(0, 1);
    assert_eq!(a.sub(&b), word(0, u128::MAX));
    assert_eq!(word(7, 9).sub(&word(3, 4)), word(4, 5));
}

#[test]
fn uint256_order_compares_high_limb_first() {
    assert!(word(0, u128::MAX).lt(&word(1, 0)));
    assert!(!word(1, 0).lt(&word(0, u128::MAX)));
    assert!(word(2, 3).lt(&word(2, 4)));
    assert!(!word(2, 4).lt(&word(2, 4)));
}

#[test]
fn uint256_reduce_mod_takes_the_remainder() {
    assert_eq!(word(0, 30).reduce_mod(&word(0, 7)), word(0, 2));
    assert_eq!(word(0, 5).reduce_mod(&word(0, 7)), word(0, 5));
}

#[test]
fn uint256_zero_is_zero() {
    assert!(Uint256::zero().is_zero());
    assert!(!word(0, 1).is_zero());
    assert!(!word(1, 0).is_zero());
    assert_eq!(Uint256::new(4, 7), word(4, 7));
}
