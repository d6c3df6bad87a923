//! The verifier: re-check every opening and the algebraic identity that
//! binds the evaluations, plus the public-output binding.

use vstd::prelude::*;
use crate::circuit::SquareCircuit;
use crate::field::{
    fmul, fsub, fr_mul, fr_sub, in_fr, lemma_fsub_zero_iff_eq, lemma_residue_in_fr,
    lemma_small_residue, Scalar,
};
use crate::kzg::opening_accepted;
use crate::params::{challenge_point, vanishing_root, CHALLENGE_POINT, VANISHING_ROOT};
use crate::prover::Proof;
use crate::setup::TrustedSetup;

verus! {

/// The two field-level checks of the verifier: the algebraic identity
/// `a_eval·b_eval - c_eval == q_eval·(zeta - root)` at the challenge point,
/// and the binding of the claimed output wire to the public output.
pub open spec fn field_checks(pf: Proof, circuit: SquareCircuit) -> bool {
    &&& fsub(fmul(pf.a_eval@, pf.b_eval@), pf.c_eval@) == fmul(
        pf.q_eval@,
        fsub(challenge_point(), vanishing_root()),
    )
    &&& pf.c_eval@ == circuit.public_output@
}

/// The verifier accepts exactly when all four openings pass the pairing
/// equation and both field-level checks hold.
pub open spec fn proof_accepted(setup: TrustedSetup, circuit: SquareCircuit, pf: Proof) -> bool {
    &&& opening_accepted(setup, pf.a_comm, challenge_point(), pf.a_eval@, pf.a_opening)
    &&& opening_accepted(setup, pf.b_comm, challenge_point(), pf.b_eval@, pf.b_opening)
    &&& opening_accepted(setup, pf.c_comm, challenge_point(), pf.c_eval@, pf.c_opening)
    &&& opening_accepted(setup, pf.q_comm, challenge_point(), pf.q_eval@, pf.q_opening)
    &&& field_checks(pf, circuit)
}

/// Verify a proof: check each of the four openings at the fixed challenge
/// point, then the algebraic identity, then the public-output binding,
/// short-circuiting on the first failure.
pub fn verify(setup: &TrustedSetup, circuit: &SquareCircuit, pf: &Proof) -> (r: bool)
    requires
        setup.g1_powers@.len() >= 1,
    ensures
        r == proof_accepted(*setup, *circuit, *pf),
{
    let zeta = Scalar::from_u64(CHALLENGE_POINT);

    if !crate::kzg::verify(setup, &pf.a_comm, zeta, pf.a_eval, &pf.a_opening) {
        return false;
    }
    if !crate::kzg::verify(setup, &pf.b_comm, zeta, pf.b_eval, &pf.b_opening) {
        return false;
    }
    if !crate::kzg::verify(setup, &pf.c_comm, zeta, pf.c_eval, &pf.c_opening) {
        return false;
    }
    if !crate::kzg::verify(setup, &pf.q_comm, zeta, pf.q_eval, &pf.q_opening) {
        return false;
    }

    let vanishing_eval = fr_sub(&zeta, &Scalar::from_u64(VANISHING_ROOT));
    let constraint_eval = fr_sub(&fr_mul(&pf.a_eval, &pf.b_eval), &pf.c_eval);
    let quotient_check = fr_mul(&pf.q_eval, &vanishing_eval);

    if !(constraint_eval == quotient_check) {
        return false;
    }
    if !(pf.c_eval == circuit.public_output) {
        return false;
    }
    true
}

/// With honest evaluations the verifier's algebraic identity holds: when
/// `x·x == out` as residues, `x·x - out` vanishes, and so does the zero
/// quotient polynomial's evaluation times the vanishing factor.
pub proof fn lemma_satisfied_gate_passes_field_check(x: int, out: int)
    requires
        in_fr(x),
        in_fr(out),
        fmul(x, x) == out,
    ensures
        fsub(fmul(x, x), out) == fmul(0, fsub(challenge_point(), vanishing_root())),
{
    lemma_small_residue(0);
}

/// With `x·x != out` as residues the identity cannot hold: `x·x - out` is
/// a nonzero residue while the zero quotient polynomial contributes
/// nothing.
pub proof fn lemma_unsatisfied_gate_fails_field_check(x: int, out: int)
    requires
        in_fr(x),
        in_fr(out),
        fmul(x, x) != out,
    ensures
        fsub(fmul(x, x), out) != fmul(0, fsub(challenge_point(), vanishing_root())),
{
    lemma_small_residue(0);
    lemma_residue_in_fr(x * x);
    lemma_fsub_zero_iff_eq(fmul(x, x), out);
}

} // verus!
