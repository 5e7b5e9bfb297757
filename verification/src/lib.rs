//! A Groth16 zero-knowledge proof verifier over a pairing-friendly curve.
//!
//! The protocol core — field-membership checks, point negation, the
//! public-input linear combination and the pairing-equation assembly — is
//! verified. The elliptic-curve group operations themselves (addition,
//! scalar multiplication, multi-pairing) are delegated to an external
//! engine reached through the [`groth_16::EcEngine`] capability trait;
//! a host adapter supplies the real engine.

pub mod codec;
pub mod constants;
pub mod errors;
pub mod field_guard;
pub mod groth_16;
pub mod protocol;
pub mod uint256;
