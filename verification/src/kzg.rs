//! The KZG commitment scheme: commit, open, verify.
//!
//! A commitment is the multi-scalar multiplication of a polynomial's
//! coefficients against the matching prefix of the SRS's G1 powers. An
//! opening proof for a claimed evaluation `y` at a point `z` is the
//! commitment to the synthetic-division quotient of `poly(X) - y` by
//! `(X - z)`. Verification checks one pairing equality.

use vstd::prelude::*;
use vstd::pervasive::unreached;
use crate::curve::{
    g1_msm, g1_point_sub, g1_scale, g1_scale_spec, g1_sub_spec, g2_point_sub, g2_scale,
    g2_scale_spec, g2_sub_spec, msm_spec, pairing_spec, pairings_match, G1Point,
};
use crate::field::{fneg, fr_neg, fr_sub, fsub, Scalar};
use crate::poly::{divide_by_linear, linear_quotient, Polynomial};
use crate::setup::TrustedSetup;

verus! {

/// The one recoverable failure of the scheme: a polynomial whose degree
/// exceeds the capacity of the SRS it is committed under.
#[derive(Clone, Copy, Debug, PartialEq, Eq, Structural)]
pub enum KzgError {
    DegreeExceeded,
}

/// A commitment: a single G1 point, binding but not hiding.
#[derive(Clone)]
pub struct Commitment(pub G1Point);

/// An opening proof: the commitment to the quotient polynomial.
#[derive(Clone)]
pub struct OpeningProof(pub G1Point);

/// The G1 point a commitment to `c` under `setup` consists of.
pub open spec fn commitment_point(setup: TrustedSetup, c: Seq<int>) -> G1Point {
    msm_spec(c, setup.g1_powers@.subrange(0, c.len() as int))
}

/// The coefficients of the numerator `poly(X) - y`: `y` is subtracted from
/// the constant term, or forms a constant term of `-y` if `c` is empty.
pub open spec fn numerator_coeffs(c: Seq<int>, y: int) -> Seq<int> {
    if c.len() == 0 {
        seq![fneg(y)]
    } else {
        c.update(0, fsub(c[0], y))
    }
}

/// The G1 point an opening proof for `(c, z, y)` under `setup` consists of:
/// the commitment to the quotient of `c(X) - y` by `(X - z)`.
pub open spec fn opening_point(setup: TrustedSetup, c: Seq<int>, z: int, y: int) -> G1Point {
    commitment_point(setup, linear_quotient(numerator_coeffs(c, y), z))
}

/// Whether the pairing equation accepts `(commitment, z, y, pf)`:
/// `e(C - y·g1_powers[0], g2_gen) == e(pf, tau·g2 - z·g2)`.
pub open spec fn opening_accepted(
    setup: TrustedSetup,
    commitment: Commitment,
    z: int,
    y: int,
    pf: OpeningProof,
) -> bool {
    pairing_spec(
        g1_sub_spec(commitment.0, g1_scale_spec(y, setup.g1_powers@[0])),
        setup.g2_gen,
    ) == pairing_spec(pf.0, g2_sub_spec(setup.g2_tau, g2_scale_spec(z, setup.g2_gen)))
}

/// Commit to a polynomial: the multi-scalar multiplication of its
/// coefficients against the first `coeffs.len()` G1 powers of the SRS.
/// Rejects a polynomial with more coefficients than the SRS has powers.
pub fn commit(setup: &TrustedSetup, poly: &Polynomial) -> (r: Result<Commitment, KzgError>)
    ensures
        poly@.len() <= setup.g1_powers@.len() ==> r == Ok::<Commitment, KzgError>(
            Commitment(commitment_point(*setup, poly@)),
        ),
        poly@.len() > setup.g1_powers@.len() ==> r == Err::<Commitment, KzgError>(
            KzgError::DegreeExceeded,
        ),
{
    if poly.coeffs.len() <= setup.g1_powers.len() {
        let point = g1_msm(&setup.g1_powers, &poly.coeffs);
        proof {
            assert(poly@ =~= poly.coeffs@.map_values(|s: Scalar| s@));
        }
        Ok(Commitment(point))
    } else {
        Err(KzgError::DegreeExceeded)
    }
}

/// Produce the opening proof for the claim `poly(z) = y`: commit to the
/// synthetic-division quotient of `poly(X) - y` by `(X - z)`. If `y` is not
/// the true evaluation the quotient's nonzero remainder is silently
/// discarded and the resulting proof simply fails verification.
pub fn open(setup: &TrustedSetup, poly: &Polynomial, z: Scalar, y: Scalar) -> (pf:
    OpeningProof)
    requires
        poly@.len() <= setup.g1_powers@.len(),
    ensures
        pf.0 == opening_point(*setup, poly@, z@, y@),
{
    let n = poly.coeffs.len();
    let mut num: Vec<Scalar> = Vec::new();
    if n == 0 {
        num.push(fr_neg(&y));
    } else {
        num.push(fr_sub(&poly.coeffs[0], &y));
        let mut i: usize = 1;
        while i < n
            invariant
                1 <= i <= n,
                n == poly.coeffs.len(),
                num@.len() == i,
                num@[0]@ == fsub(poly@[0], y@),
                forall|j: int| 1 <= j < i ==> num@[j] == poly.coeffs@[j],
            decreases n - i,
        {
            num.push(poly.coeffs[i]);
            i = i + 1;
        }
    }
    let numerator = Polynomial { coeffs: num };
    proof {
        assert(numerator@ =~= numerator_coeffs(poly@, y@));
    }
    let quotient = divide_by_linear(&numerator, &z);
    match commit(setup, &quotient) {
        Ok(c) => OpeningProof(c.0),
        Err(_) => unreached(),
    }
}

/// Verify an opening: compute `C - y·g1_powers[0]` and `tau·g2 - z·g2` and
/// check the pairing equality. True exactly when the pairing equation
/// accepts the claim.
pub fn verify(
    setup: &TrustedSetup,
    commitment: &Commitment,
    z: Scalar,
    y: Scalar,
    pf: &OpeningProof,
) -> (r: bool)
    requires
        setup.g1_powers@.len() >= 1,
    ensures
        r == opening_accepted(*setup, *commitment, z@, y@, *pf),
{
    let y_g1 = g1_scale(&y, &setup.g1_powers[0]);
    let c_minus_y = g1_point_sub(&commitment.0, &y_g1);
    let z_g2 = g2_scale(&z, &setup.g2_gen);
    let tau_minus_z = g2_point_sub(&setup.g2_tau, &z_g2);
    pairings_match(&c_minus_y, &setup.g2_gen, &pf.0, &tau_minus_z)
}

} // verus!
