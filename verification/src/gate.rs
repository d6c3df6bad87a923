//! A single arithmetic gate: five selector scalars defining the constraint
//! `qL·a + qR·b + qO·c + qM·(a·b) + qC = 0` over the wire values `a, b, c`.

use vstd::prelude::*;
use vstd::arithmetic::div_mod::{
    lemma_add_mod_noop, lemma_fundamental_div_mod_converse, lemma_mod_multiples_vanish,
};
use crate::field::{
    fadd, fmul, fneg, fr_add, fr_mul, fr_neg, fr_ord, fsub, in_fr, lemma_fsub_zero_iff_eq,
    lemma_residue_in_fr, lemma_small_residue, Scalar,
};

verus! {

/// The residue `qL·a + qR·b + qO·c + qM·(a·b) + qC` of a gate's selectors
/// on a wire triple.
pub open spec fn gate_eval(
    ql: int,
    qr: int,
    qo: int,
    qm: int,
    qc: int,
    a: int,
    b: int,
    c: int,
) -> int {
    fadd(fadd(fadd(fadd(fmul(ql, a), fmul(qr, b)), fmul(qo, c)), fmul(qm, fmul(a, b))), qc)
}

/// Choosing `q_m = 1`, `q_o = fneg(1)` and zero elsewhere turns `gate_eval`
/// into `fsub(fmul(a, b), c)`: it vanishes on a wire triple exactly when
/// the first two residues multiply to the third.
pub proof fn lemma_multiplication_gate_eval(a: int, b: int, c: int)
    requires
        in_fr(a),
        in_fr(b),
        in_fr(c),
    ensures
        gate_eval(0, 0, fneg(1), 1, 0, a, b, c) == fsub(fmul(a, b), c),
        gate_eval(0, 0, fneg(1), 1, 0, a, b, c) == 0 <==> fmul(a, b) == c,
{
    lemma_small_residue(0);
    // 0·a and 0·b vanish
    assert(fmul(0, a) == 0);
    assert(fmul(0, b) == 0);
    assert(fadd(0, 0) == 0);
    // the negation of one is the largest residue
    lemma_fundamental_div_mod_converse(-1, fr_ord(), -1, fr_ord() - 1);
    assert(fneg(1) == fr_ord() - 1);
    // (-1)·c is -c
    assert((fr_ord() - 1) * c == fr_ord() * c + (0 - c)) by (nonlinear_arith);
    lemma_mod_multiples_vanish(c, 0 - c, fr_ord());
    assert(fmul(fneg(1), c) == fneg(c));
    lemma_residue_in_fr(0 - c);
    assert(fadd(0, fneg(c)) == fneg(c));
    // 1·(a·b) is a·b
    lemma_residue_in_fr(a * b);
    lemma_small_residue(fmul(a, b));
    assert(fmul(1, fmul(a, b)) == fmul(a, b));
    // -c + a·b is a·b - c
    lemma_add_mod_noop(0 - c, fmul(a, b), fr_ord());
    assert(fadd(fneg(c), fmul(a, b)) == fsub(fmul(a, b), c));
    lemma_residue_in_fr(fmul(a, b) - c);
    assert(fadd(fsub(fmul(a, b), c), 0) == fsub(fmul(a, b), c));
    lemma_fsub_zero_iff_eq(fmul(a, b), c);
}

/// One gate: five field-element selectors.
#[derive(Clone, Debug)]
pub struct Gate {
    /// Left wire selector.
    pub q_l: Scalar,
    /// Right wire selector.
    pub q_r: Scalar,
    /// Output wire selector.
    pub q_o: Scalar,
    /// Multiplication selector.
    pub q_m: Scalar,
    /// Constant selector.
    pub q_c: Scalar,
}

impl Gate {
    /// The multiplication gate `a · b = c`:
    /// `0·a + 0·b + (-1)·c + 1·(a·b) + 0 = 0`.
    pub fn multiplication() -> (r: Gate)
        ensures
            r.q_l@ == 0,
            r.q_r@ == 0,
            r.q_o@ == fneg(1),
            r.q_m@ == 1,
            r.q_c@ == 0,
    {
        Gate {
            q_l: Scalar::zero(),
            q_r: Scalar::zero(),
            q_o: fr_neg(&Scalar::one()),
            q_m: Scalar::one(),
            q_c: Scalar::zero(),
        }
    }

    /// The addition gate `a + b = c`:
    /// `1·a + 1·b + (-1)·c + 0·(a·b) + 0 = 0`.
    pub fn addition() -> (r: Gate)
        ensures
            r.q_l@ == 1,
            r.q_r@ == 1,
            r.q_o@ == fneg(1),
            r.q_m@ == 0,
            r.q_c@ == 0,
    {
        Gate {
            q_l: Scalar::one(),
            q_r: Scalar::one(),
            q_o: fr_neg(&Scalar::one()),
            q_m: Scalar::zero(),
            q_c: Scalar::zero(),
        }
    }

    /// True when the wires meet this gate: `gate_eval` on them is the zero
    /// residue.
    pub fn is_satisfied(&self, a: Scalar, b: Scalar, c: Scalar) -> (r: bool)
        ensures
            r == (gate_eval(self.q_l@, self.q_r@, self.q_o@, self.q_m@, self.q_c@, a@, b@, c@)
                == 0),
    {
        let result = fr_add(
            &fr_add(
                &fr_add(
                    &fr_add(&fr_mul(&self.q_l, &a), &fr_mul(&self.q_r, &b)),
                    &fr_mul(&self.q_o, &c),
                ),
                &fr_mul(&self.q_m, &fr_mul(&a, &b)),
            ),
            &self.q_c,
        );
        result == Scalar::zero()
    }
}

} // verus!
