//! The two field moduli of the curve, as 128-bit limb pairs.

use vstd::prelude::*;

use crate::uint256::Uint256;

verus! {

/// High limb shared by both moduli.
pub const FIELD_MODULUS_HI: u128 = 0x30644e72e131a029b85045b68181585d;

/// Low limb of the base-field (coordinate) modulus.
pub const PRIME_Q_LO: u128 = 0x97816a916871ca8d3c208c16d87cfd47;

/// Low limb of the scalar-field (public-input) modulus.
pub const SNARK_SCALAR_FIELD_LO: u128 = 0x2833e84879b9709143e1f593f0000001;

/// The base-field modulus: every curve coordinate must lie strictly below it.
pub open spec fn spec_prime_q() -> Uint256 {
    Uint256 { hi: FIELD_MODULUS_HI, lo: PRIME_Q_LO }
}

/// The scalar-field modulus: every public input must lie strictly below it.
pub open spec fn spec_snark_scalar_field() -> Uint256 {
    Uint256 { hi: FIELD_MODULUS_HI, lo: SNARK_SCALAR_FIELD_LO }
}

/// The value of the base-field modulus.
pub open spec fn prime_q_nat() -> nat {
    spec_prime_q().as_nat()
}

/// The value of the scalar-field modulus.
pub open spec fn snark_scalar_field_nat() -> nat {
    spec_snark_scalar_field().as_nat()
}

/// Returns the base-field modulus.
pub fn prime_q() -> (r: Uint256)
    ensures
        r == spec_prime_q(),
{
    Uint256 { hi: FIELD_MODULUS_HI, lo: PRIME_Q_LO }
}

/// Returns the scalar-field modulus.
pub fn snark_scalar_field() -> (r: Uint256)
    ensures
        r == spec_snark_scalar_field(),
{
    Uint256 { hi: FIELD_MODULUS_HI, lo: SNARK_SCALAR_FIELD_LO }
}

} // verus!
