//! The two pairing groups of BLS12-381.
//!
//! Curve points are opaque to the verifier. The arkworks point types are
//! generic over curve-configuration traits of their own crate, which Verus
//! cannot declare, so each point is held in an opaque wrapper struct whose
//! single field carries the arkworks value; the field stays reachable for
//! unverified callers such as tests. Every group operation the library
//! needs — scalar multiplication, subtraction, multi-scalar multiplication
//! and the pairing equality test — is a trusted wrapper whose result is
//! named by an uninterpreted specification function. Each such operation is
//! a deterministic function of its arguments, which is all the names claim.

use vstd::prelude::*;
use ark_bls12_381::{Bls12_381, Fr, G1Affine, G1Projective, G2Affine};
use ark_ec::pairing::{Pairing, PairingOutput};
use ark_ec::{AffineRepr, CurveGroup, VariableBaseMSM};
use ark_ff::{BigInt, PrimeField};
use crate::field::Scalar;

verus! {

/// An affine point of the first pairing group, opaque to the verifier.
#[verifier::external_body]
pub struct G1Point {
    pub inner: G1Affine,
}

impl Clone for G1Point {
    /// Relies on the arkworks point being `Copy`: the clone is the same point.
    #[verifier::external_body]
    fn clone(&self) -> (r: Self)
        ensures
            r == *self,
    {
        G1Point { inner: self.inner }
    }
}

/// An affine point of the second pairing group, opaque to the verifier.
#[verifier::external_body]
pub struct G2Point {
    pub inner: G2Affine,
}

impl Clone for G2Point {
    /// Relies on the arkworks point being `Copy`: the clone is the same point.
    #[verifier::external_body]
    fn clone(&self) -> (r: Self)
        ensures
            r == *self,
    {
        G2Point { inner: self.inner }
    }
}

/// An element of the pairing's target group, opaque to the verifier. It
/// appears only in specifications, as the codomain of `pairing_spec`.
#[verifier::external_body]
pub struct GtPoint {
    pub inner: PairingOutput<Bls12_381>,
}

/// The affine point `s · p` in the first group, for a canonical residue `s`.
pub uninterp spec fn g1_scale_spec(s: int, p: G1Point) -> G1Point;

/// The affine point `s · p` in the second group, for a canonical residue `s`.
pub uninterp spec fn g2_scale_spec(s: int, p: G2Point) -> G2Point;

/// The affine difference `a - b` in the first group.
pub uninterp spec fn g1_sub_spec(a: G1Point, b: G1Point) -> G1Point;

/// The affine difference `a - b` in the second group.
pub uninterp spec fn g2_sub_spec(a: G2Point, b: G2Point) -> G2Point;

/// The multi-scalar multiplication `sum_i coeffs[i] · bases[i]` over the
/// first group, as an affine point.
pub uninterp spec fn msm_spec(coeffs: Seq<int>, bases: Seq<G1Point>) -> G1Point;

/// The bilinear pairing of a point of each group into the target group.
pub uninterp spec fn pairing_spec(a: G1Point, b: G2Point) -> GtPoint;

/// Relies on `ark_ec`'s scalar multiplication in G1: the result is the
/// scalar multiple of `p` by `s`, normalized to affine form.
#[verifier::external_body]
pub(crate) fn g1_scale(s: &Scalar, p: &G1Point) -> (r: G1Point)
    ensures
        r == g1_scale_spec(s@, *p),
{
    let f = Fr::from_bigint(BigInt([s.d0, s.d1, s.d2, s.d3])).unwrap();
    G1Point { inner: (p.inner.into_group() * f).into_affine() }
}

/// Relies on `ark_ec`'s scalar multiplication in G2.
#[verifier::external_body]
pub(crate) fn g2_scale(s: &Scalar, p: &G2Point) -> (r: G2Point)
    ensures
        r == g2_scale_spec(s@, *p),
{
    let f = Fr::from_bigint(BigInt([s.d0, s.d1, s.d2, s.d3])).unwrap();
    G2Point { inner: (p.inner.into_group() * f).into_affine() }
}

/// Relies on `ark_ec`'s group subtraction in G1.
#[verifier::external_body]
pub(crate) fn g1_point_sub(a: &G1Point, b: &G1Point) -> (r: G1Point)
    ensures
        r == g1_sub_spec(*a, *b),
{
    G1Point { inner: (a.inner.into_group() - b.inner.into_group()).into_affine() }
}

/// Relies on `ark_ec`'s group subtraction in G2.
#[verifier::external_body]
pub(crate) fn g2_point_sub(a: &G2Point, b: &G2Point) -> (r: G2Point)
    ensures
        r == g2_sub_spec(*a, *b),
{
    G2Point { inner: (a.inner.into_group() - b.inner.into_group()).into_affine() }
}

/// Relies on `ark_ec`'s `msm_unchecked` over G1: the inner product of the
/// first `coeffs.len()` bases with the coefficients, in affine form.
#[verifier::external_body]
pub(crate) fn g1_msm(bases: &Vec<G1Point>, coeffs: &Vec<Scalar>) -> (r: G1Point)
    requires
        coeffs@.len() <= bases@.len(),
    ensures
        r == msm_spec(
            coeffs@.map_values(|s: Scalar| s@),
            bases@.subrange(0, coeffs@.len() as int),
        ),
{
    let scalars: Vec<Fr> = coeffs
        .iter()
        .map(|s| Fr::from_bigint(BigInt([s.d0, s.d1, s.d2, s.d3])).unwrap())
        .collect();
    let points: Vec<G1Affine> = bases[..scalars.len()].iter().map(|p| p.inner).collect();
    G1Point { inner: G1Projective::msm_unchecked(&points, &scalars).into_affine() }
}

/// Relies on `ark_ec`'s pairing for BLS12-381: whether the pairing of the
/// first pair of points equals the pairing of the second pair.
#[verifier::external_body]
pub(crate) fn pairings_match(a: &G1Point, p: &G2Point, b: &G1Point, q: &G2Point) -> (r: bool)
    ensures
        r == (pairing_spec(*a, *p) == pairing_spec(*b, *q)),
{
    Bls12_381::pairing(a.inner, p.inner) == Bls12_381::pairing(b.inner, q.inner)
}

/// Relies on `ark_ec`'s generator of G1.
#[verifier::external_body]
pub(crate) fn g1_generator() -> (r: G1Point) {
    G1Point { inner: G1Affine::generator() }
}

/// Relies on `ark_ec`'s generator of G2.
#[verifier::external_body]
pub(crate) fn g2_generator() -> (r: G2Point) {
    G2Point { inner: G2Affine::generator() }
}

} // verus!
