//! The prover: from SRS, circuit and witness to a proof.
//!
//! The wires are represented as degree-0 polynomials, the constraint
//! polynomial is `A(X)·B(X) - C(X)`, and the quotient polynomial is its
//! synthetic-division quotient by the vanishing factor `(X - root)`. All
//! four polynomials are committed and opened at the fixed challenge point.

use vstd::prelude::*;
use vstd::pervasive::unreached;
use crate::circuit::SquareCircuit;
use crate::field::{fmul, fsub, in_fr, lemma_fsub_zero_iff_eq, lemma_residue_in_fr, Scalar};
use crate::kzg::{commit, commitment_point, open, opening_point, Commitment, OpeningProof};
use crate::params::{challenge_point, vanishing_root, CHALLENGE_POINT, VANISHING_ROOT};
use crate::poly::{
    conv_term, conv_upto, divide_by_linear, lemma_eval_constant, linear_quotient, mul_poly, poly_eval,
    poly_mul_coeffs, poly_sub_coeffs, sub_poly, Polynomial,
};
use crate::setup::TrustedSetup;
use crate::witness::Witness;

verus! {

/// A complete proof: a commitment, an evaluation at the challenge point and
/// an opening for each of the three wire polynomials and the quotient
/// polynomial.
#[derive(Clone)]
pub struct Proof {
    pub a_comm: Commitment,
    pub b_comm: Commitment,
    pub c_comm: Commitment,
    pub q_comm: Commitment,
    pub a_eval: Scalar,
    pub b_eval: Scalar,
    pub c_eval: Scalar,
    pub q_eval: Scalar,
    pub a_opening: OpeningProof,
    pub b_opening: OpeningProof,
    pub c_opening: OpeningProof,
    pub q_opening: OpeningProof,
}

/// The coefficients of the constraint polynomial `T(X) = A(X)·B(X) - C(X)`
/// for the one-gate wire assignment `a = b = x`, `c = out`.
pub open spec fn constraint_coeffs(x: int, out: int) -> Seq<int> {
    poly_sub_coeffs(poly_mul_coeffs(seq![x], seq![x]), seq![out])
}

/// The coefficients of the quotient polynomial `Q(X) = T(X) / (X - root)`.
pub open spec fn quotient_coeffs(x: int, out: int) -> Seq<int> {
    linear_quotient(constraint_coeffs(x, out), vanishing_root())
}

/// The one-gate constraint polynomial is the constant `x·x - out`: its
/// value at every point of the field is that single residue.
pub proof fn lemma_constraint_eval(x: int, out: int, z: int)
    requires
        in_fr(x),
        in_fr(out),
    ensures
        poly_eval(constraint_coeffs(x, out), z) == fsub(fmul(x, x), out),
{
    let t = constraint_coeffs(x, out);
    let s = seq![x];
    assert(poly_mul_coeffs(s, s) =~= seq![fmul(x, x)]) by {
        assert(conv_upto(s, s, 0, 0) == 0);
        assert(conv_term(s, s, 0, 0) == x * x);
        assert(conv_upto(s, s, 0, 1) == x * x);
    }
    assert(t =~= seq![fsub(fmul(x, x), out)]);
    lemma_residue_in_fr(fmul(x, x) - out);
    lemma_eval_constant(fsub(fmul(x, x), out), z);
}

/// The division by the vanishing factor is exact precisely for a wire
/// assignment that meets the multiplication gate: the constraint
/// polynomial vanishes at the root if and only if `x·x == out` in the
/// field.
pub proof fn lemma_constraint_vanishes_iff_gate_met(x: int, out: int)
    requires
        in_fr(x),
        in_fr(out),
    ensures
        poly_eval(constraint_coeffs(x, out), vanishing_root()) == 0 <==> fmul(x, x) == out,
{
    lemma_constraint_eval(x, out, vanishing_root());
    lemma_fsub_zero_iff_eq(fmul(x, x), out);
}

/// Build the constraint polynomial `A(X)·B(X) - C(X)`.
pub fn compute_constraint_polynomial(a: &Polynomial, b: &Polynomial, c: &Polynomial) -> (t:
    Polynomial)
    requires
        a@.len() + b@.len() <= usize::MAX,
    ensures
        t@ == poly_sub_coeffs(poly_mul_coeffs(a@, b@), c@),
{
    let ab = mul_poly(a, b);
    sub_poly(&ab, c)
}

/// Quotient of the constraint polynomial by `(X - root)`: one shared
/// synthetic-division primitive serves both this and the opening path. A
/// nonzero remainder is dropped here without complaint.
pub fn divide_by_vanishing(poly: &Polynomial, root: &Scalar) -> (q: Polynomial)
    ensures
        q@ == linear_quotient(poly@, root@),
{
    divide_by_linear(poly, root)
}

/// Produce a proof for the given circuit and witness: commit to the wire
/// polynomials and the quotient polynomial, evaluate each at the fixed
/// challenge point and open each evaluation. Deterministic given its
/// arguments; a bad witness still yields a well-formed proof object, which
/// the verifier then rejects.
pub fn prove(setup: &TrustedSetup, circuit: &SquareCircuit, witness: &Witness) -> (p: Proof)
    requires
        setup.g1_powers@.len() >= 1,
    ensures
        p.a_comm.0 == commitment_point(*setup, seq![witness.x@]),
        p.b_comm.0 == commitment_point(*setup, seq![witness.x@]),
        p.c_comm.0 == commitment_point(*setup, seq![circuit.public_output@]),
        p.q_comm.0 == commitment_point(
            *setup,
            quotient_coeffs(witness.x@, circuit.public_output@),
        ),
        p.a_eval@ == witness.x@,
        p.b_eval@ == witness.x@,
        p.c_eval@ == circuit.public_output@,
        p.q_eval@ == poly_eval(
            quotient_coeffs(witness.x@, circuit.public_output@),
            challenge_point(),
        ),
        p.q_eval@ == 0,
        p.a_opening.0 == opening_point(*setup, seq![witness.x@], challenge_point(), witness.x@),
        p.b_opening.0 == opening_point(*setup, seq![witness.x@], challenge_point(), witness.x@),
        p.c_opening.0 == opening_point(
            *setup,
            seq![circuit.public_output@],
            challenge_point(),
            circuit.public_output@,
        ),
        p.q_opening.0 == opening_point(
            *setup,
            quotient_coeffs(witness.x@, circuit.public_output@),
            challenge_point(),
            0,
        ),
{
    let wires = circuit.wire_values(witness);

    let mut av: Vec<Scalar> = Vec::new();
    av.push(wires.a);
    let a_poly = Polynomial { coeffs: av };
    let mut bv: Vec<Scalar> = Vec::new();
    bv.push(wires.b);
    let b_poly = Polynomial { coeffs: bv };
    let mut cv: Vec<Scalar> = Vec::new();
    cv.push(wires.c);
    let c_poly = Polynomial { coeffs: cv };
    proof {
        assert(a_poly@ =~= seq![witness.x@]);
        assert(b_poly@ =~= seq![witness.x@]);
        assert(c_poly@ =~= seq![circuit.public_output@]);
    }

    let a_comm = match commit(setup, &a_poly) {
        Ok(c) => c,
        Err(_) => unreached(),
    };
    let b_comm = match commit(setup, &b_poly) {
        Ok(c) => c,
        Err(_) => unreached(),
    };
    let c_comm = match commit(setup, &c_poly) {
        Ok(c) => c,
        Err(_) => unreached(),
    };

    let t_poly = compute_constraint_polynomial(&a_poly, &b_poly, &c_poly);
    let root = Scalar::from_u64(VANISHING_ROOT);
    let q_poly = divide_by_vanishing(&t_poly, &root);
    proof {
        assert(q_poly@ == quotient_coeffs(witness.x@, circuit.public_output@));
        assert(q_poly@.len() == 0);
    }
    let q_comm = match commit(setup, &q_poly) {
        Ok(c) => c,
        Err(_) => unreached(),
    };

    let zeta = Scalar::from_u64(CHALLENGE_POINT);
    let a_eval = a_poly.evaluate(&zeta);
    let b_eval = b_poly.evaluate(&zeta);
    let c_eval = c_poly.evaluate(&zeta);
    let q_eval = q_poly.evaluate(&zeta);
    proof {
        use_type_invariant(&wires.a);
        use_type_invariant(&wires.c);
        lemma_eval_constant(witness.x@, zeta@);
        lemma_eval_constant(circuit.public_output@, zeta@);
    }

    let a_opening = open(setup, &a_poly, zeta, a_eval);
    let b_opening = open(setup, &b_poly, zeta, b_eval);
    let c_opening = open(setup, &c_poly, zeta, c_eval);
    let q_opening = open(setup, &q_poly, zeta, q_eval);

    Proof {
        a_comm,
        b_comm,
        c_comm,
        q_comm,
        a_eval,
        b_eval,
        c_eval,
        q_eval,
        a_opening,
        b_opening,
        c_opening,
        q_opening,
    }
}

} // verus!
