//! Big-endian byte encoding of 256-bit words.
//!
//! The external engine is invoked with flat calldata: each 256-bit value is
//! one 32-byte big-endian word, concatenated in a fixed order. This module
//! verifies the word-level conversions both ways; the point-level calldata
//! layouts build on them.

use vstd::prelude::*;

use crate::groth_16::{G1Point, G2Point};
use crate::uint256::{lemma_as_nat_injective, limb_radix, Uint256};

verus! {

/// `256^k`: the number of values of a `k`-byte big-endian string.
pub open spec fn pow256(k: nat) -> nat
    decreases k,
{
    if k == 0 {
        1
    } else {
        256 * pow256((k - 1) as nat)
    }
}

/// The value of a big-endian byte string: the last byte is least significant.
pub open spec fn bytes_as_nat(s: Seq<u8>) -> nat
    decreases s.len(),
{
    if s.len() == 0 {
        0
    } else {
        (bytes_as_nat(s.drop_last()) * 256 + s.last()) as nat
    }
}

/// The two byte-string sizes the codec works at, as explicit constants:
/// a 15- or 16-byte string covers `2^120` or `2^128` values.
pub proof fn lemma_pow256_limbs()
    ensures
        pow256(15) == 0x1000000000000000000000000000000nat,
        pow256(16) == limb_radix(),
{
    reveal_with_fuel(pow256, 17);
}

pub proof fn lemma_pow256_pos(k: nat)
    ensures
        pow256(k) >= 1,
    decreases k,
{
    if k > 0 {
        lemma_pow256_pos((k - 1) as nat);
    }
}

pub proof fn lemma_pow256_monotone(a: nat, b: nat)
    requires
        a <= b,
    ensures
        pow256(a) <= pow256(b),
    decreases b,
{
    if a < b {
        lemma_pow256_monotone(a, (b - 1) as nat);
        lemma_pow256_pos((b - 1) as nat);
    }
}

/// Concatenation shifts the left part by the length of the right part.
pub proof fn lemma_bytes_as_nat_concat(a: Seq<u8>, b: Seq<u8>)
    ensures
        bytes_as_nat(a + b) == bytes_as_nat(a) * pow256(b.len()) + bytes_as_nat(b),
    decreases b.len(),
{
    if b.len() == 0 {
        assert(a + b =~= a);
        assert(pow256(0) == 1);
        assert(bytes_as_nat(b) == 0);
        assert(bytes_as_nat(a + b) == bytes_as_nat(a) * pow256(b.len()) + bytes_as_nat(b));
    } else {
        let n = b.len();
        let xa = bytes_as_nat(a);
        let d = bytes_as_nat(b.drop_last());
        let l = b.last() as nat;
        lemma_bytes_as_nat_concat(a, b.drop_last());
        assert((a + b).drop_last() =~= a + b.drop_last());
        assert(b.drop_last().len() == (n - 1) as nat);
        assert(bytes_as_nat(a + b) == (xa * pow256((n - 1) as nat) + d) * 256 + l);
        assert((xa * pow256((n - 1) as nat) + d) * 256 + l == xa * (pow256((n - 1) as nat) * 256)
            + (d * 256 + l)) by (nonlinear_arith);
        assert(pow256((n - 1) as nat) * 256 == pow256(n));
        assert(bytes_as_nat(b) == d * 256 + l);
        assert(bytes_as_nat(a + b) == xa * pow256(n) + bytes_as_nat(b));
    }
}

/// Writes a 128-bit value as 16 big-endian bytes.
pub fn u128_to_be_bytes(x: u128) -> (r: Vec<u8>)
    ensures
        r@.len() == 16,
        bytes_as_nat(r@) == x,
{
    let mut out: Vec<u8> = Vec::new();
    let mut div: u128 = 0x1000000000000000000000000000000;
    proof {
        lemma_pow256_limbs();
        vstd::arithmetic::div_mod::lemma_basic_div(x as int, pow256(16) as int);
    }
    let mut i: usize = 0;
    while i < 16
        invariant
            i <= 16,
            out@.len() == i,
            i < 16 ==> div == pow256((15 - i) as nat),
            bytes_as_nat(out@) == x as nat / pow256((16 - i) as nat),
        decreases 16 - i,
    {
        proof {
            lemma_pow256_pos((15 - i) as nat);
            assert(pow256((16 - i) as nat) == 256 * pow256((15 - i) as nat));
            vstd::arithmetic::div_mod::lemma_div_denominator(
                x as int,
                pow256((15 - i) as nat) as int,
                256,
            );
            vstd::arithmetic::div_mod::lemma_fundamental_div_mod(
                (x as nat / pow256((15 - i) as nat)) as int,
                256,
            );
        }
        let b: u8 = ((x / div) % 256) as u8;
        let ghost prev = out@;
        out.push(b);
        assert(out@.drop_last() =~= prev);
        if i < 15 {
            proof {
                assert(pow256((15 - i) as nat) == 256 * pow256((14 - i) as nat));
                vstd::arithmetic::div_mod::lemma_div_multiples_vanish(
                    pow256((14 - i) as nat) as int,
                    256,
                );
            }
            div = div / 256;
        }
        i += 1;
    }
    proof {
        vstd::arithmetic::div_mod::lemma_div_basics(x as int);
        assert(pow256(0) == 1);
    }
    out
}

/// Reads a 128-bit value from 16 big-endian bytes.
pub fn u128_from_be_bytes(s: &[u8]) -> (r: u128)
    requires
        s@.len() == 16,
    ensures
        r == bytes_as_nat(s@),
{
    let mut acc: u128 = 0;
    let mut i: usize = 0;
    while i < 16
        invariant
            i <= 16,
            s@.len() == 16,
            acc == bytes_as_nat(s@.subrange(0, i as int)),
            acc < pow256(i as nat),
        decreases 16 - i,
    {
        proof {
            assert(pow256((i + 1) as nat) == 256 * pow256(i as nat));
            lemma_pow256_monotone((i + 1) as nat, 16);
            lemma_pow256_limbs();
            assert(s@.subrange(0, i + 1).drop_last() =~= s@.subrange(0, i as int));
        }
        let b: u8 = s[i];
        acc = acc * 256 + (b as u128);
        i += 1;
    }
    proof {
        assert(s@.subrange(0, 16) =~= s@);
    }
    acc
}

/// Writes a 256-bit word as 32 big-endian bytes.
pub fn uint256_to_be_bytes(v: &Uint256) -> (r: Vec<u8>)
    ensures
        r@.len() == 32,
        bytes_as_nat(r@) == v.as_nat(),
{
    let mut out = u128_to_be_bytes(v.hi);
    let mut low = u128_to_be_bytes(v.lo);
    let ghost h = out@;
    let ghost l = low@;
    out.append(&mut low);
    proof {
        lemma_bytes_as_nat_concat(h, l);
        lemma_pow256_limbs();
    }
    out
}

/// Reads a 256-bit word from 32 big-endian bytes.
pub fn uint256_from_be_bytes(s: &[u8]) -> (r: Uint256)
    requires
        s@.len() == 32,
    ensures
        r.as_nat() == bytes_as_nat(s@),
{
    let hi = u128_from_be_bytes(vstd::slice::slice_subrange(s, 0, 16));
    let lo = u128_from_be_bytes(vstd::slice::slice_subrange(s, 16, 32));
    proof {
        assert(s@ =~= s@.subrange(0, 16) + s@.subrange(16, 32));
        lemma_bytes_as_nat_concat(s@.subrange(0, 16), s@.subrange(16, 32));
        lemma_pow256_limbs();
    }
    Uint256 { hi, lo }
}

/// The value of the `k`-th 32-byte word of a calldata string.
pub open spec fn word_at(s: Seq<u8>, k: int) -> nat {
    bytes_as_nat(s.subrange(32 * k, 32 * k + 32))
}

/// Lays a sequence of 256-bit words out as flat calldata, one 32-byte
/// big-endian word each, in order.
pub fn words_calldata(words: &Vec<Uint256>) -> (r: Vec<u8>)
    ensures
        r@.len() == 32 * words@.len(),
        forall|k: int| 0 <= k < words@.len() ==> word_at(r@, k) == words@[k].as_nat(),
{
    let mut out: Vec<u8> = Vec::new();
    let mut i: usize = 0;
    while i < words.len()
        invariant
            i <= words@.len(),
            out@.len() == 32 * i,
            forall|k: int| 0 <= k < i ==> word_at(out@, k) == words@[k].as_nat(),
        decreases words@.len() - i,
    {
        let mut word = uint256_to_be_bytes(&words[i]);
        let ghost prev = out@;
        let ghost fresh = word@;
        out.append(&mut word);
        proof {
            assert(out@ == prev + fresh);
            assert forall|k: int| 0 <= k < i + 1 implies word_at(out@, k) == words@[k].as_nat() by {
                if k < i {
                    assert(word_at(prev, k) == words@[k].as_nat());
                    assert(out@.subrange(32 * k, 32 * k + 32) =~= prev.subrange(
                        32 * k,
                        32 * k + 32,
                    ));
                    assert(bytes_as_nat(out@.subrange(32 * k, 32 * k + 32)) == bytes_as_nat(
                        prev.subrange(32 * k, 32 * k + 32),
                    ));
                } else {
                    assert(bytes_as_nat(fresh) == words@[k].as_nat());
                    assert(out@.subrange(32 * k, 32 * k + 32) =~= fresh);
                    assert(bytes_as_nat(out@.subrange(32 * k, 32 * k + 32)) == bytes_as_nat(fresh));
                }
            }
        }
        i += 1;
    }
    out
}

/// Builds the point-addition request: the two points' coordinates as four
/// words, `x1 y1 x2 y2`.
pub fn g1_pair_calldata(p1: &G1Point, p2: &G1Point) -> (r: Vec<u8>)
    ensures
        r@.len() == 128,
        word_at(r@, 0) == p1.x.as_nat(),
        word_at(r@, 1) == p1.y.as_nat(),
        word_at(r@, 2) == p2.x.as_nat(),
        word_at(r@, 3) == p2.y.as_nat(),
{
    let mut words: Vec<Uint256> = Vec::new();
    words.push(p1.x);
    words.push(p1.y);
    words.push(p2.x);
    words.push(p2.y);
    words_calldata(&words)
}

/// Builds the scalar-multiplication request: the point's coordinates and
/// the scalar as three words, `x y s`.
pub fn scalar_mul_calldata(p: &G1Point, s: &Uint256) -> (r: Vec<u8>)
    ensures
        r@.len() == 96,
        word_at(r@, 0) == p.x.as_nat(),
        word_at(r@, 1) == p.y.as_nat(),
        word_at(r@, 2) == s.as_nat(),
{
    let mut words: Vec<Uint256> = Vec::new();
    words.push(p.x);
    words.push(p.y);
    words.push(*s);
    words_calldata(&words)
}

/// The six words of one (G1, G2) pairing operand, in request order:
/// `x y X[0] X[1] Y[0] Y[1]`.
pub open spec fn pair_words_hold(s: Seq<u8>, base: int, p1: G1Point, p2: G2Point) -> bool {
    &&& word_at(s, base) == p1.x.as_nat()
    &&& word_at(s, base + 1) == p1.y.as_nat()
    &&& word_at(s, base + 2) == p2.x[0].as_nat()
    &&& word_at(s, base + 3) == p2.x[1].as_nat()
    &&& word_at(s, base + 4) == p2.y[0].as_nat()
    &&& word_at(s, base + 5) == p2.y[1].as_nat()
}

/// Builds the multi-pairing request: four (G1, G2) pairs as twenty-four
/// words, six per pair, pairs in order.
pub fn pairing_calldata(
    a1: &G1Point,
    a2: &G2Point,
    b1: &G1Point,
    b2: &G2Point,
    c1: &G1Point,
    c2: &G2Point,
    d1: &G1Point,
    d2: &G2Point,
) -> (r: Vec<u8>)
    ensures
        r@.len() == 768,
        pair_words_hold(r@, 0, *a1, *a2),
        pair_words_hold(r@, 6, *b1, *b2),
        pair_words_hold(r@, 12, *c1, *c2),
        pair_words_hold(r@, 18, *d1, *d2),
{
    let mut words: Vec<Uint256> = Vec::new();
    words.push(a1.x);
    words.push(a1.y);
    words.push(a2.x[0]);
    words.push(a2.x[1]);
    words.push(a2.y[0]);
    words.push(a2.y[1]);
    words.push(b1.x);
    words.push(b1.y);
    words.push(b2.x[0]);
    words.push(b2.x[1]);
    words.push(b2.y[0]);
    words.push(b2.y[1]);
    words.push(c1.x);
    words.push(c1.y);
    words.push(c2.x[0]);
    words.push(c2.x[1]);
    words.push(c2.y[0]);
    words.push(c2.y[1]);
    words.push(d1.x);
    words.push(d1.y);
    words.push(d2.x[0]);
    words.push(d2.x[1]);
    words.push(d2.y[0]);
    words.push(d2.y[1]);
    words_calldata(&words)
}

/// Reads an engine point response: two 32-byte words, abscissa then
/// ordinate. Fewer than 64 bytes is no point.
pub fn decode_g1(s: &[u8]) -> (r: Option<G1Point>)
    ensures
        s@.len() >= 64 ==> (r matches Some(p) && p.x.as_nat() == word_at(s@, 0)
            && p.y.as_nat() == word_at(s@, 1)),
        s@.len() < 64 ==> r is None,
{
    if s.len() >= 64 {
        let x = uint256_from_be_bytes(vstd::slice::slice_subrange(s, 0, 32));
        let y = uint256_from_be_bytes(vstd::slice::slice_subrange(s, 32, 64));
        Some(G1Point { x, y })
    } else {
        None
    }
}

/// Reads an engine boolean response: the first 32-byte word, nonzero
/// meaning true. Fewer than 32 bytes is no answer.
pub fn decode_bool(s: &[u8]) -> (r: Option<bool>)
    ensures
        s@.len() >= 32 ==> r == Some(word_at(s@, 0) != 0),
        s@.len() < 32 ==> r is None,
{
    if s.len() >= 32 {
        let word = uint256_from_be_bytes(vstd::slice::slice_subrange(s, 0, 32));
        Some(!word.is_zero())
    } else {
        None
    }
}

/// Encoding then decoding is the identity: a word that encodes to a
/// 32-byte string, and the word read back from that string, are the same
/// word.
pub proof fn lemma_word_round_trip(v: Uint256, s: Seq<u8>, w: Uint256)
    requires
        s.len() == 32,
        bytes_as_nat(s) == v.as_nat(),
        w.as_nat() == bytes_as_nat(s),
    ensures
        w == v,
{
    lemma_as_nat_injective(w, v);
}

} // verus!
