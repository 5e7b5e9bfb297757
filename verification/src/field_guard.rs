//! Field-membership checks.
//!
//! Every 256-bit word handed to the verifier must lie strictly below the
//! modulus of the field it is used in before it is treated as a coordinate
//! or a scalar.

use vstd::prelude::*;

use crate::errors::VerifierError;
use crate::uint256::Uint256;

verus! {

/// Succeeds iff `value < modulus`; otherwise fails with the given
/// field-membership error, naming which bound was violated.
pub fn check_below(value: &Uint256, modulus: &Uint256, violation: VerifierError) -> (r: Result<
    (),
    VerifierError,
>)
    ensures
        r == if value.as_nat() < modulus.as_nat() {
            Ok::<(), VerifierError>(())
        } else {
            Err::<(), VerifierError>(violation)
        },
{
    if value.lt(modulus) {
        Ok(())
    } else {
        Err(violation)
    }
}

} // verus!
