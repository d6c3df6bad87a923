//! Trusted-setup generation: the structured reference string (SRS).
//!
//! The SRS consists of the powers of a secret scalar `tau` encoded in the
//! first pairing group, together with the second group's generator and its
//! `tau` multiple. `tau` itself is sampled from a thread-local random
//! source, lives only inside `generate`, and is dropped with its frame; the
//! design does not guarantee erasure of its memory beyond that scope.

use vstd::prelude::*;
use crate::curve::{
    g1_generator, g1_scale, g1_scale_spec, g2_generator, g2_scale, g2_scale_spec, G1Point,
    G2Point,
};
use crate::field::{fmul, fr_mul, fr_random, in_fr, Scalar};

verus! {

/// The field power `t^i` computed entirely by field multiplication.
pub open spec fn pow_residue(t: int, i: int) -> int
    decreases i,
{
    if i <= 0 {
        1
    } else {
        fmul(t, pow_residue(t, i - 1))
    }
}

/// The structured reference string: `g1_powers[i] = tau^i · G1_generator`
/// for a secret scalar `tau`, plus the G2 generator and its `tau` multiple.
#[derive(Clone)]
pub struct TrustedSetup {
    pub g1_powers: Vec<G1Point>,
    pub g2_gen: G2Point,
    pub g2_tau: G2Point,
}

impl TrustedSetup {
    /// The SRS is internally consistent: a single canonical residue `t` and
    /// a single base point `g` generate every G1 power and the G2 `tau`
    /// multiple. The scalar itself is existentially bound: it is toxic
    /// waste and never retained.
    pub open spec fn srs_generated_by(self, t: int, g: G1Point) -> bool {
        in_fr(t) && self.g2_tau == g2_scale_spec(t, self.g2_gen) && forall|i: int|
            0 <= i < self.g1_powers@.len() ==> self.g1_powers@[i] == g1_scale_spec(
                pow_residue(t, i),
                g,
            )
    }

    pub open spec fn srs_shape(self) -> bool {
        exists|t: int, g: G1Point| self.srs_generated_by(t, g)
    }

    /// Generate an SRS for polynomials of degree at most `max_degree`: one
    /// G1 power per coefficient, computed by one field multiplication and
    /// one scalar multiplication per step.
    pub fn generate(max_degree: usize) -> (s: TrustedSetup)
        requires
            max_degree < usize::MAX,
        ensures
            s.g1_powers@.len() == max_degree + 1,
            s.srs_shape(),
    {
        let tau = fr_random();
        let gen1 = g1_generator();
        let gen2 = g2_generator();
        let mut g1_powers: Vec<G1Point> = Vec::new();
        let mut cur = Scalar::one();
        let mut k: usize = 0;
        while k <= max_degree
            invariant
                k <= max_degree + 1,
                max_degree < usize::MAX,
                g1_powers@.len() == k,
                cur@ == pow_residue(tau@, k as int),
                forall|j: int|
                    0 <= j < k ==> g1_powers@[j] == g1_scale_spec(pow_residue(tau@, j), gen1),
            decreases max_degree + 1 - k,
        {
            let point = g1_scale(&cur, &gen1);
            g1_powers.push(point);
            cur = fr_mul(&tau, &cur);
            k = k + 1;
        }
        let g2_tau = g2_scale(&tau, &gen2);
        let s = TrustedSetup { g1_powers, g2_gen: gen2, g2_tau };
        proof {
            use_type_invariant(&tau);
            assert(s.srs_generated_by(tau@, gen1));
        }
        s
    }

    /// The largest polynomial degree this SRS can commit to.
    pub fn max_degree(&self) -> (d: usize)
        requires
            self.g1_powers@.len() >= 1,
        ensures
            d == self.g1_powers@.len() - 1,
    {
        self.g1_powers.len() - 1
    }
}

} // verus!
