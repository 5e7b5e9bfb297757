//! Curve points, curve-level negation, and the external engine boundary.
//!
//! The only group operation computed locally is negation, which needs no
//! curve arithmetic — just a field subtraction. Point addition, scalar
//! multiplication and the multi-pairing check are requests to an external
//! engine, reached through the [`EcEngine`] capability so the protocol is
//! independent of any particular host.

use vstd::prelude::*;

use crate::constants;
use crate::constants::prime_q_nat;
use crate::errors::{EngineError, VerifierError};
use crate::uint256::{lemma_from_nat_as_nat, Uint256};

verus! {

/// An affine point over the base field; `(0, 0)` encodes the identity.
#[derive(Clone, Copy, PartialEq, Eq, Structural, Debug)]
pub struct G1Point {
    pub x: Uint256,
    pub y: Uint256,
}

/// An affine point over the quadratic extension of the base field.
/// Each coordinate `c` encodes the extension element `c[0] * z + c[1]`.
#[derive(Clone, Copy, PartialEq, Eq, Debug)]
pub struct G2Point {
    pub x: [Uint256; 2],
    pub y: [Uint256; 2],
}

/// The additive inverse of a base-field point: the identity stays fixed,
/// any other point keeps its abscissa and gets `q - (y mod q)` as ordinate.
pub open spec fn spec_negate(p: G1Point) -> G1Point {
    if p.x.as_nat() == 0 && p.y.as_nat() == 0 {
        G1Point { x: Uint256 { hi: 0, lo: 0 }, y: Uint256 { hi: 0, lo: 0 } }
    } else {
        G1Point {
            x: p.x,
            y: Uint256::from_nat((prime_q_nat() - (p.y.as_nat() % prime_q_nat())) as nat),
        }
    }
}

/// The identity point `(0, 0)` is its own negation.
pub proof fn lemma_negate_identity()
    ensures
        (spec_negate(G1Point { x: Uint256 { hi: 0, lo: 0 }, y: Uint256 { hi: 0, lo: 0 } })
            == G1Point { x: Uint256 { hi: 0, lo: 0 }, y: Uint256 { hi: 0, lo: 0 } }),
{
}

/// Negation is an involution on every point the protocol accepts: both
/// coordinates below the base-field modulus, with a zero ordinate only at
/// the identity (no point of the curve's prime-order group has a zero
/// ordinate elsewhere).
pub proof fn lemma_negate_involution(p: G1Point)
    requires
        p.x.as_nat() < prime_q_nat(),
        p.y.as_nat() < prime_q_nat(),
        p.y.as_nat() == 0 ==> p.x.as_nat() == 0,
    ensures
        spec_negate(spec_negate(p)) == p,
{
    if p.x.as_nat() == 0 && p.y.as_nat() == 0 {
        assert(p.x == (Uint256 { hi: 0, lo: 0 }));
        assert(p.y == (Uint256 { hi: 0, lo: 0 }));
    } else {
        let q = prime_q_nat();
        let y = p.y.as_nat();
        assert(y != 0);
        vstd::arithmetic::div_mod::lemma_small_mod(y, q);
        crate::uint256::lemma_from_nat_value((q - y) as nat);
        let y1 = Uint256::from_nat((q - y) as nat);
        assert(y1.as_nat() == q - y);
        vstd::arithmetic::div_mod::lemma_small_mod((q - y) as nat, q);
        lemma_from_nat_as_nat(p.y);
    }
}

/// The capability through which the external elliptic-curve engine is
/// reached. The engine is deterministic and side-effect-free: what each
/// request returns is a function of the engine and the request alone,
/// `None` standing for an opaque failure with no partial result.
///
/// A host adapter implements this trait over the environment's well-known
/// curve-operation endpoints; a mock implementation drives the protocol in
/// tests.
pub trait EcEngine: Sized {
    /// What the engine answers to a point-addition request.
    spec fn spec_add(&self, p1: G1Point, p2: G1Point) -> Option<G1Point>;

    /// What the engine answers to a scalar-multiplication request.
    spec fn spec_scalar_mul(&self, p: G1Point, s: Uint256) -> Option<G1Point>;

    /// What the engine answers to a four-pair multi-pairing request:
    /// `Some(true)` iff the product of the four pairings is the identity.
    spec fn spec_pairing(
        &self,
        a1: G1Point,
        a2: G2Point,
        b1: G1Point,
        b2: G2Point,
        c1: G1Point,
        c2: G2Point,
        d1: G1Point,
        d2: G2Point,
    ) -> Option<bool>;

    /// Requests the sum of two base-field points.
    fn add(&self, p1: &G1Point, p2: &G1Point) -> (r: Result<G1Point, EngineError>)
        ensures
            match self.spec_add(*p1, *p2) {
                Some(q) => r == Ok::<G1Point, EngineError>(q),
                None => r is Err,
            },
    ;

    /// Requests a base-field point multiplied by a scalar.
    fn scalar_mul(&self, p: &G1Point, s: &Uint256) -> (r: Result<G1Point, EngineError>)
        ensures
            match self.spec_scalar_mul(*p, *s) {
                Some(q) => r == Ok::<G1Point, EngineError>(q),
                None => r is Err,
            },
    ;

    /// Requests the multi-pairing check over four (G1, G2) pairs, given in
    /// order.
    fn pairing_check(
        &self,
        a1: &G1Point,
        a2: &G2Point,
        b1: &G1Point,
        b2: &G2Point,
        c1: &G1Point,
        c2: &G2Point,
        d1: &G1Point,
        d2: &G2Point,
    ) -> (r: Result<bool, EngineError>)
        ensures
            match self.spec_pairing(*a1, *a2, *b1, *b2, *c1, *c2, *d1, *d2) {
                Some(b) => r == Ok::<bool, EngineError>(b),
                None => r is Err,
            },
    ;
}

/// The group operations of the protocol: local negation, and the engine
/// requests with each opaque failure mapped to its own error kind.
pub struct Groth16 {}

impl Groth16 {
    /// Negates a base-field point locally.
    pub fn negate(p: G1Point) -> (r: G1Point)
        ensures
            r == spec_negate(p),
    {
        if p.x.is_zero() && p.y.is_zero() {
            G1Point { x: Uint256::zero(), y: Uint256::zero() }
        } else {
            let q = constants::prime_q();
            assert(q.as_nat() > 0);
            let y_mod = p.y.reduce_mod(&q);
            let y_neg = q.sub(&y_mod);
            proof {
                lemma_from_nat_as_nat(y_neg);
            }
            G1Point { x: p.x, y: y_neg }
        }
    }

    /// Adds two points through the engine; an engine failure is `Plus`.
    pub fn plus<E: EcEngine>(engine: &E, p1: &G1Point, p2: &G1Point) -> (r: Result<
        G1Point,
        VerifierError,
    >)
        ensures
            match engine.spec_add(*p1, *p2) {
                Some(q) => r == Ok::<G1Point, VerifierError>(q),
                None => r == Err::<G1Point, VerifierError>(VerifierError::Plus),
            },
    {
        match engine.add(p1, p2) {
            Ok(p) => Ok(p),
            Err(_) => Err(VerifierError::Plus),
        }
    }

    /// Multiplies a point by a scalar through the engine; an engine failure
    /// is `ScalarMulti`.
    pub fn scalar_mul<E: EcEngine>(engine: &E, p1: &G1Point, s: &Uint256) -> (r: Result<
        G1Point,
        VerifierError,
    >)
        ensures
            match engine.spec_scalar_mul(*p1, *s) {
                Some(q) => r == Ok::<G1Point, VerifierError>(q),
                None => r == Err::<G1Point, VerifierError>(VerifierError::ScalarMulti),
            },
    {
        match engine.scalar_mul(p1, s) {
            Ok(p) => Ok(p),
            Err(_) => Err(VerifierError::ScalarMulti),
        }
    }

    /// Runs the four-pair multi-pairing check through the engine; an engine
    /// failure is `Pairing`.
    pub fn pairing<E: EcEngine>(
        engine: &E,
        a1: G1Point,
        a2: G2Point,
        b1: G1Point,
        b2: G2Point,
        c1: G1Point,
        c2: G2Point,
        d1: G1Point,
        d2: G2Point,
    ) -> (r: Result<bool, VerifierError>)
        ensures
            match engine.spec_pairing(a1, a2, b1, b2, c1, c2, d1, d2) {
                Some(b) => r == Ok::<bool, VerifierError>(b),
                None => r == Err::<bool, VerifierError>(VerifierError::Pairing),
            },
    {
        match engine.pairing_check(&a1, &a2, &b1, &b2, &c1, &c2, &d1, &d2) {
            Ok(b) => Ok(b),
            Err(_) => Err(VerifierError::Pairing),
        }
    }
}

} // verus!
