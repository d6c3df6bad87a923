//! The scalar field of BLS12-381.
//!
//! A `Scalar` is a canonical residue modulo the prime order of the curve's
//! scalar group, held as four 64-bit limbs in little-endian order. Its
//! specification-level value is an integer in `[0, fr_ord())`, and the
//! field operations are specified as plain modular arithmetic on those
//! integers. The modular reductions themselves are performed by `ark_ff`
//! behind trusted wrappers.

use vstd::prelude::*;
use vstd::arithmetic::div_mod::{
    lemma_fundamental_div_mod_converse, lemma_mod_bound, lemma_small_mod,
};
use ark_bls12_381::Fr;
use ark_ff::{BigInt, PrimeField, UniformRand};
use rand::thread_rng;

verus! {

/// The order of the scalar field of BLS12-381: a 255-bit prime.
pub open spec fn fr_ord() -> int {
    0x73eda753299d7d483339d80809a1d80553bda402fffe5bfeffffffff00000001int
}

/// `a` is a canonical residue: an integer in `[0, fr_ord())`.
pub open spec fn in_fr(a: int) -> bool {
    0 <= a < fr_ord()
}

/// Field addition of canonical residues.
pub open spec fn fadd(a: int, b: int) -> int {
    (a + b) % fr_ord()
}

/// Field subtraction of canonical residues.
pub open spec fn fsub(a: int, b: int) -> int {
    (a - b) % fr_ord()
}

/// Field multiplication of canonical residues.
pub open spec fn fmul(a: int, b: int) -> int {
    (a * b) % fr_ord()
}

/// Field negation: the additive inverse of `a`.
pub open spec fn fneg(a: int) -> int {
    (-a) % fr_ord()
}

/// An element of the BLS12-381 scalar field: four 64-bit limbs,
/// little-endian, always holding the canonical residue.
#[derive(Clone, Copy, Debug)]
pub struct Scalar {
    pub(crate) d0: u64,
    pub(crate) d1: u64,
    pub(crate) d2: u64,
    pub(crate) d3: u64,
}

impl View for Scalar {
    type V = int;

    closed spec fn view(&self) -> int {
        self.d0 + self.d1 * 0x1_0000_0000_0000_0000
            + self.d2 * 0x1_0000_0000_0000_0000_0000_0000_0000_0000int
            + self.d3 * 0x1_0000_0000_0000_0000_0000_0000_0000_0000_0000_0000_0000_0000int
    }
}

impl Scalar {
    #[verifier::type_invariant]
    pub(crate) open spec fn canonical(self) -> bool {
        in_fr(self@)
    }

    /// The residue of a small unsigned integer.
    pub fn from_u64(x: u64) -> (r: Scalar)
        ensures
            r@ == x as int,
    {
        Scalar { d0: x, d1: 0, d2: 0, d3: 0 }
    }

    /// The residue of a small signed integer; a negative input maps to the
    /// additive inverse of its magnitude.
    pub fn from_i64(x: i64) -> (r: Scalar)
        ensures
            x >= 0 ==> r@ == x as int,
            x < 0 ==> r@ == fneg(-(x as int)),
    {
        if x >= 0 {
            Scalar::from_u64(x as u64)
        } else {
            let mag: u64 = (-(x as i128)) as u64;
            fr_neg(&Scalar::from_u64(mag))
        }
    }

    /// The additive identity.
    pub fn zero() -> (r: Scalar)
        ensures
            r@ == 0,
    {
        Scalar { d0: 0, d1: 0, d2: 0, d3: 0 }
    }

    /// The multiplicative identity.
    pub fn one() -> (r: Scalar)
        ensures
            r@ == 1,
    {
        Scalar { d0: 1, d1: 0, d2: 0, d3: 0 }
    }

    /// Field addition.
    pub fn add(&self, other: &Scalar) -> (r: Scalar)
        ensures
            r@ == fadd(self@, other@),
    {
        fr_add(self, other)
    }

    /// Field subtraction.
    pub fn sub(&self, other: &Scalar) -> (r: Scalar)
        ensures
            r@ == fsub(self@, other@),
    {
        fr_sub(self, other)
    }

    /// Field multiplication.
    pub fn mul(&self, other: &Scalar) -> (r: Scalar)
        ensures
            r@ == fmul(self@, other@),
    {
        fr_mul(self, other)
    }

    /// Field negation.
    pub fn neg(&self) -> (r: Scalar)
        ensures
            r@ == fneg(self@),
    {
        fr_neg(self)
    }
}

/// The four limbs determine the value and, on canonical residues, the value
/// determines the limbs: the limb decomposition in base 2^64 is unique.
proof fn lemma_limbs_injective(a: Scalar, b: Scalar)
    ensures
        a@ == b@ ==> a == b,
{
    if a@ == b@ {
        let base: int = 0x1_0000_0000_0000_0000;
        let qa: int = a.d1 + a.d2 * base + a.d3 * base * base;
        let qb: int = b.d1 + b.d2 * base + b.d3 * base * base;
        assert(a@ == qa * base + a.d0);
        assert(b@ == qb * base + b.d0);
        lemma_fundamental_div_mod_converse(a@, base, qa, a.d0 as int);
        lemma_fundamental_div_mod_converse(b@, base, qb, b.d0 as int);
        assert(a.d0 == b.d0);
        assert(qa == qb);
        let ra: int = a.d2 + a.d3 * base;
        let rb: int = b.d2 + b.d3 * base;
        assert(qa == ra * base + a.d1);
        assert(qb == rb * base + b.d1);
        lemma_fundamental_div_mod_converse(qa, base, ra, a.d1 as int);
        lemma_fundamental_div_mod_converse(qb, base, rb, b.d1 as int);
        assert(a.d1 == b.d1);
        assert(ra == rb);
        lemma_fundamental_div_mod_converse(ra, base, a.d3 as int, a.d2 as int);
        lemma_fundamental_div_mod_converse(rb, base, b.d3 as int, b.d2 as int);
        assert(a.d2 == b.d2);
        assert(a.d3 == b.d3);
    }
}

impl PartialEq for Scalar {
    fn eq(&self, other: &Scalar) -> (r: bool) {
        proof {
            use_type_invariant(self);
            use_type_invariant(other);
            lemma_limbs_injective(*self, *other);
        }
        self.d0 == other.d0 && self.d1 == other.d1 && self.d2 == other.d2
            && self.d3 == other.d3
    }
}

impl vstd::std_specs::cmp::PartialEqSpecImpl for Scalar {
    open spec fn obeys_eq_spec() -> bool {
        true
    }

    open spec fn eq_spec(&self, other: &Scalar) -> bool {
        self@ == other@
    }
}

/// A field operation on canonical residues yields a canonical residue.
pub proof fn lemma_residue_in_fr(a: int)
    ensures
        in_fr(a % fr_ord()),
{
    lemma_mod_bound(a, fr_ord());
}

/// A canonical residue is fixed by reduction.
pub proof fn lemma_small_residue(a: int)
    requires
        in_fr(a),
    ensures
        a % fr_ord() == a,
{
    lemma_small_mod(a as nat, fr_ord() as nat);
}

/// Field subtraction separates canonical residues: the difference of two
/// canonical residues is the zero residue only when they are equal.
pub proof fn lemma_fsub_zero_iff_eq(a: int, b: int)
    requires
        in_fr(a),
        in_fr(b),
    ensures
        fsub(a, b) == 0 <==> a == b,
{
    lemma_small_mod(0, fr_ord() as nat);
    if a >= b {
        lemma_small_mod((a - b) as nat, fr_ord() as nat);
    } else {
        lemma_fundamental_div_mod_converse(a - b, fr_ord(), -1, a - b + fr_ord());
    }
}

/// Relies on `ark_ff`'s field addition on `Fr`: the sum of two canonical
/// residues, reduced modulo the field order.
#[verifier::external_body]
pub(crate) fn fr_add(a: &Scalar, b: &Scalar) -> (r: Scalar)
    ensures
        r@ == fadd(a@, b@),
{
    let x = Fr::from_bigint(BigInt([a.d0, a.d1, a.d2, a.d3])).unwrap()
        + Fr::from_bigint(BigInt([b.d0, b.d1, b.d2, b.d3])).unwrap();
    let l = x.into_bigint().0;
    Scalar { d0: l[0], d1: l[1], d2: l[2], d3: l[3] }
}

/// Relies on `ark_ff`'s field subtraction on `Fr`: the difference of two
/// canonical residues, reduced modulo the field order.
#[verifier::external_body]
pub(crate) fn fr_sub(a: &Scalar, b: &Scalar) -> (r: Scalar)
    ensures
        r@ == fsub(a@, b@),
{
    let x = Fr::from_bigint(BigInt([a.d0, a.d1, a.d2, a.d3])).unwrap()
        - Fr::from_bigint(BigInt([b.d0, b.d1, b.d2, b.d3])).unwrap();
    let l = x.into_bigint().0;
    Scalar { d0: l[0], d1: l[1], d2: l[2], d3: l[3] }
}

/// Relies on `ark_ff`'s field multiplication on `Fr`: the product of two
/// canonical residues, reduced modulo the field order.
#[verifier::external_body]
pub(crate) fn fr_mul(a: &Scalar, b: &Scalar) -> (r: Scalar)
    ensures
        r@ == fmul(a@, b@),
{
    let x = Fr::from_bigint(BigInt([a.d0, a.d1, a.d2, a.d3])).unwrap()
        * Fr::from_bigint(BigInt([b.d0, b.d1, b.d2, b.d3])).unwrap();
    let l = x.into_bigint().0;
    Scalar { d0: l[0], d1: l[1], d2: l[2], d3: l[3] }
}

/// Relies on `ark_ff`'s field negation on `Fr`: the additive inverse of a
/// canonical residue.
#[verifier::external_body]
pub(crate) fn fr_neg(a: &Scalar) -> (r: Scalar)
    ensures
        r@ == fneg(a@),
{
    let x = -Fr::from_bigint(BigInt([a.d0, a.d1, a.d2, a.d3])).unwrap();
    let l = x.into_bigint().0;
    Scalar { d0: l[0], d1: l[1], d2: l[2], d3: l[3] }
}

/// Relies on `ark_ff`'s uniform sampling of `Fr` with `rand`'s thread-local
/// generator. The outcome depends on chance, so nothing is assumed of it
/// beyond canonicity.
#[verifier::external_body]
pub(crate) fn fr_random() -> (r: Scalar)
    ensures
        in_fr(r@),
{
    let x = Fr::rand(&mut thread_rng());
    let l = x.into_bigint().0;
    Scalar { d0: l[0], d1: l[1], d2: l[2], d3: l[3] }
}

} // verus!
