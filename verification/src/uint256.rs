//! A 256-bit unsigned integer modeled as two 128-bit limbs.
//!
//! Curve coordinates and scalars are 256-bit words. This module gives them
//! a representation whose mathematical value is visible to the verifier,
//! with the comparison, subtraction and modular reduction the protocol
//! needs.

use vstd::prelude::*;

verus! {

/// The number of distinct values of a 128-bit limb, `2^128`.
pub open spec fn limb_radix() -> nat {
    0x100000000000000000000000000000000nat
}

/// A 256-bit unsigned integer: `hi * 2^128 + lo`.
#[derive(Clone, Copy, PartialEq, Eq, Structural, Debug)]
pub struct Uint256 {
    pub hi: u128,
    pub lo: u128,
}

impl Uint256 {
    /// The mathematical value of this word.
    pub open spec fn as_nat(self) -> nat {
        (self.hi * limb_radix() + self.lo) as nat
    }

    /// The word holding a given value below `2^256`.
    pub open spec fn from_nat(n: nat) -> Uint256 {
        Uint256 { hi: (n / limb_radix()) as u128, lo: (n % limb_radix()) as u128 }
    }

    /// Builds a word from its two 128-bit limbs, most significant first.
    pub fn new(hi: u128, lo: u128) -> (r: Uint256)
        ensures
            r == (Uint256 { hi, lo }),
    {
        Uint256 { hi, lo }
    }

    /// The zero word.
    pub fn zero() -> (r: Uint256)
        ensures
            r.as_nat() == 0,
    {
        Uint256 { hi: 0, lo: 0 }
    }

    /// Tests whether this word is zero.
    pub fn is_zero(&self) -> (r: bool)
        ensures
            r == (self.as_nat() == 0),
    {
        self.hi == 0 && self.lo == 0
    }

    /// Compares two words: `self < other` on their values.
    pub fn lt(&self, other: &Uint256) -> (r: bool)
        ensures
            r == (self.as_nat() < other.as_nat()),
    {
        proof {
            lemma_limb_order(*self, *other);
        }
        if self.hi != other.hi {
            self.hi < other.hi
        } else {
            self.lo < other.lo
        }
    }

    /// Subtracts `other` from `self`; the difference must not be negative.
    pub fn sub(&self, other: &Uint256) -> (r: Uint256)
        requires
            other.as_nat() <= self.as_nat(),
        ensures
            r.as_nat() == self.as_nat() - other.as_nat(),
    {
        proof {
            lemma_limb_order(*other, *self);
        }
        if self.lo >= other.lo {
            Uint256 { hi: self.hi - other.hi, lo: self.lo - other.lo }
        } else {
            Uint256 { hi: self.hi - other.hi - 1, lo: (u128::MAX - other.lo) + self.lo + 1 }
        }
    }

    /// Reduces this word modulo a nonzero modulus by repeated subtraction.
    pub fn reduce_mod(&self, m: &Uint256) -> (r: Uint256)
        requires
            m.as_nat() > 0,
        ensures
            r.as_nat() == self.as_nat() % m.as_nat(),
            r.as_nat() < m.as_nat(),
    {
        let mut y: Uint256 = *self;
        while !y.lt(m)
            invariant
                m.as_nat() > 0,
                y.as_nat() % m.as_nat() == self.as_nat() % m.as_nat(),
            decreases y.as_nat(),
        {
            proof {
                vstd::arithmetic::div_mod::lemma_mod_sub_multiples_vanish(
                    y.as_nat() as int,
                    m.as_nat() as int,
                );
            }
            y = y.sub(m);
        }
        proof {
            vstd::arithmetic::div_mod::lemma_small_mod(y.as_nat(), m.as_nat());
        }
        y
    }
}

/// Relates the limb-wise order of two words to the order of their values:
/// a strictly larger high limb outweighs any low limb.
proof fn lemma_limb_order(a: Uint256, b: Uint256)
    ensures
        a.hi < b.hi ==> a.as_nat() < b.as_nat(),
        a.hi == b.hi ==> (a.as_nat() < b.as_nat() <==> a.lo < b.lo),
        a.as_nat() <= b.as_nat() && a.lo > b.lo ==> a.hi < b.hi,
{
    if a.hi < b.hi {
        assert(a.hi * limb_radix() + limb_radix() <= b.hi * limb_radix()) by (nonlinear_arith)
            requires a.hi < b.hi;
    }
    if a.as_nat() <= b.as_nat() && a.lo > b.lo && a.hi >= b.hi {
        assert(b.hi * limb_radix() <= a.hi * limb_radix()) by (nonlinear_arith)
            requires b.hi <= a.hi;
    }
}

/// A word's value determines its limbs.
pub proof fn lemma_as_nat_injective(a: Uint256, b: Uint256)
    requires
        a.as_nat() == b.as_nat(),
    ensures
        a == b,
{
    vstd::arithmetic::div_mod::lemma_fundamental_div_mod_converse(
        a.as_nat() as int,
        limb_radix() as int,
        a.hi as int,
        a.lo as int,
    );
    vstd::arithmetic::div_mod::lemma_fundamental_div_mod_converse(
        b.as_nat() as int,
        limb_radix() as int,
        b.hi as int,
        b.lo as int,
    );
}

/// `as_nat` inverts `from_nat` on every value below `2^256`.
pub proof fn lemma_from_nat_value(n: nat)
    requires
        n < limb_radix() * limb_radix(),
    ensures
        Uint256::from_nat(n).as_nat() == n,
{
    vstd::arithmetic::div_mod::lemma_fundamental_div_mod(n as int, limb_radix() as int);
    vstd::arithmetic::div_mod::lemma_mod_bound(n as int, limb_radix() as int);
    vstd::arithmetic::div_mod::lemma_multiply_divide_lt(
        n as int,
        limb_radix() as int,
        limb_radix() as int,
    );
}

/// `from_nat` inverts `as_nat`.
pub proof fn lemma_from_nat_as_nat(a: Uint256)
    ensures
        Uint256::from_nat(a.as_nat()) == a,
{
    vstd::arithmetic::div_mod::lemma_fundamental_div_mod_converse(
        a.as_nat() as int,
        limb_radix() as int,
        a.hi as int,
        a.lo as int,
    );
}

} // verus!
