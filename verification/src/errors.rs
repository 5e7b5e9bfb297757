//! The verifier's failure taxonomy.

use vstd::prelude::*;

verus! {

/// Why a verification call did not produce a trustworthy answer.
///
/// Exactly one kind is raised at each failing step of the pipeline; a caller
/// must treat every kind as "no answer", never as "proof invalid" — only an
/// explicit `Ok(false)` means the proof is invalid.
#[derive(Clone, Copy, PartialEq, Eq, Structural, Debug)]
pub enum VerifierError {
    /// A proof coordinate is not below the base-field modulus.
    PrimeVerification,
    /// The public input is not below the scalar-field modulus.
    OutsideField,
    /// The engine failed the scalar-multiplication call.
    ScalarMulti,
    /// The engine failed the point-addition call.
    Plus,
    /// The engine failed the multi-pairing call.
    Pairing,
}

/// An opaque failure of one external engine call: no partial result.
#[derive(Clone, Copy, PartialEq, Eq, Structural, Debug)]
pub struct EngineError;

} // verus!
