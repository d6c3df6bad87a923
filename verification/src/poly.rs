//! Dense polynomials over the BLS12-381 scalar field.
//!
//! A polynomial is an ordered sequence of field coefficients, lowest degree
//! first. Evaluation, multiplication, subtraction and synthetic division by
//! a linear factor are implemented and verified here against specification
//! functions over integer sequences; the division identity — dividend equals
//! quotient times divisor plus remainder, all in the field — is proved as
//! `lemma_synthetic_division`.

use vstd::prelude::*;
use vstd::arithmetic::div_mod::{
    lemma_add_mod_noop, lemma_add_mod_noop_right, lemma_mod_twice, lemma_mul_mod_noop_left,
    lemma_mul_mod_noop_right,
};
use crate::field::{
    fadd, fmul, fr_add, fr_mul, fr_ord, fr_sub, fsub, in_fr, lemma_residue_in_fr,
    lemma_small_residue, Scalar,
};

verus! {

/// A dense polynomial: coefficients lowest degree first.
#[derive(Clone, Debug)]
pub struct Polynomial {
    pub coeffs: Vec<Scalar>,
}

impl View for Polynomial {
    type V = Seq<int>;

    open spec fn view(&self) -> Seq<int> {
        self.coeffs@.map_values(|s: Scalar| s@)
    }
}

/// Horner evaluation of `c` at `z`, entirely in the field.
pub open spec fn poly_eval(c: Seq<int>, z: int) -> int
    decreases c.len(),
{
    if c.len() == 0 {
        0
    } else {
        fadd(c[0], fmul(z, poly_eval(c.skip(1), z)))
    }
}

/// Horner evaluation of `c` at `z` over the plain integers, no reduction.
spec fn eval_int(c: Seq<int>, z: int) -> int
    decreases c.len(),
{
    if c.len() == 0 {
        0
    } else {
        c[0] + z * eval_int(c.skip(1), z)
    }
}

/// The quotient of `c` by the linear factor `(X - root)`, as produced by
/// synthetic division: coefficient `i` of the quotient is the evaluation of
/// the tail `c[i + 1 ..]` at `root`. The remainder — the evaluation of `c`
/// at `root` — is discarded.
pub open spec fn linear_quotient(c: Seq<int>, root: int) -> Seq<int> {
    if c.len() == 0 {
        Seq::empty()
    } else {
        Seq::new((c.len() - 1) as nat, |i: int| poly_eval(c.skip(i + 1), root))
    }
}

/// Field evaluation is integer evaluation followed by one reduction.
proof fn lemma_eval_mod(c: Seq<int>, z: int)
    ensures
        poly_eval(c, z) == eval_int(c, z) % fr_ord(),
    decreases c.len(),
{
    if c.len() == 0 {
        lemma_small_residue(0);
    } else {
        let t = c.skip(1);
        lemma_eval_mod(t, z);
        lemma_mul_mod_noop_right(z, eval_int(t, z), fr_ord());
        lemma_add_mod_noop_right(c[0], z * eval_int(t, z), fr_ord());
    }
}

/// Integer evaluation respects coefficientwise congruence.
proof fn lemma_eval_congruent(a: Seq<int>, b: Seq<int>, z: int)
    requires
        a.len() == b.len(),
        forall|i: int| 0 <= i < a.len() ==> a[i] % fr_ord() == b[i] % fr_ord(),
    ensures
        eval_int(a, z) % fr_ord() == eval_int(b, z) % fr_ord(),
    decreases a.len(),
{
    if a.len() > 0 {
        let ta = a.skip(1);
        let tb = b.skip(1);
        assert(forall|i: int| 0 <= i < ta.len() ==> ta[i] % fr_ord() == tb[i] % fr_ord());
        lemma_eval_congruent(ta, tb, z);
        let ea = eval_int(ta, z);
        let eb = eval_int(tb, z);
        lemma_mul_mod_noop_right(z, ea, fr_ord());
        lemma_mul_mod_noop_right(z, eb, fr_ord());
        lemma_add_mod_noop(a[0], z * ea, fr_ord());
        lemma_add_mod_noop(b[0], z * eb, fr_ord());
    }
}

/// The quotient of `c` by `(X - root)` over the plain integers.
spec fn int_quotient(c: Seq<int>, root: int) -> Seq<int> {
    Seq::new((c.len() - 1) as nat, |i: int| eval_int(c.skip(i + 1), root))
}

/// Ruffini's rule over the integers: for non-empty `c`,
/// `c(z) == q(z) * (z - root) + c(root)` where `q` is the integer quotient.
proof fn lemma_ruffini(c: Seq<int>, root: int, z: int)
    requires
        c.len() >= 1,
    ensures
        eval_int(c, z) == eval_int(int_quotient(c, root), z) * (z - root) + eval_int(c, root),
    decreases c.len(),
{
    let q = int_quotient(c, root);
    if c.len() == 1 {
        assert(q.len() == 0);
        assert(eval_int(q, z) == 0);
        assert(eval_int(q, z) * (z - root) == 0) by (nonlinear_arith)
            requires eval_int(q, z) == 0;
        assert(c.skip(1).len() == 0);
        assert(eval_int(c.skip(1), z) == 0);
        assert(eval_int(c.skip(1), root) == 0);
        assert(eval_int(c, z) == c[0]);
        assert(eval_int(c, root) == c[0]);
    } else {
        let t = c.skip(1);
        lemma_ruffini(t, root, z);
        let qt = int_quotient(t, root);
        let q0 = eval_int(t, root);
        assert(q[0] == q0);
        assert forall|i: int| 0 <= i < qt.len() implies q.skip(1)[i] == qt[i] by {
            assert(c.skip(1).skip(i + 1) =~= c.skip(i + 2));
        }
        assert(q.skip(1) =~= qt);
        let eqt = eval_int(qt, z);
        assert(eval_int(q, z) == q0 + z * eqt);
        assert(eval_int(c, z) == c[0] + z * eval_int(t, z));
        assert(eval_int(c, root) == c[0] + root * q0);
        assert(c[0] + z * (eqt * (z - root) + q0) == (q0 + z * eqt) * (z - root) + (c[0]
            + root * q0)) by (nonlinear_arith);
    }
}

/// The remainder form of synthetic division, in the field: for every
/// polynomial `c`, point `z` and root `root`,
/// `c(z) == quotient(z) * (z - root) + c(root)`,
/// where `quotient` is the synthetic-division quotient of `c` by
/// `(X - root)` and all operations are modulo the field order.
pub proof fn lemma_synthetic_division(c: Seq<int>, root: int, z: int)
    ensures
        poly_eval(c, z) == fadd(
            fmul(poly_eval(linear_quotient(c, root), z), fsub(z, root)),
            poly_eval(c, root),
        ),
{
    if c.len() == 0 {
        lemma_small_residue(0);
        assert(fmul(0, fsub(z, root)) == 0);
        assert(fadd(0, 0) == 0);
    } else {
        let qf = linear_quotient(c, root);
        let qi = int_quotient(c, root);
        assert forall|i: int| 0 <= i < qf.len() implies qf[i] % fr_ord() == qi[i] % fr_ord() by {
            lemma_eval_mod(c.skip(i + 1), root);
            lemma_mod_twice(eval_int(c.skip(i + 1), root), fr_ord());
        }
        lemma_eval_congruent(qf, qi, z);
        lemma_eval_mod(qf, z);
        lemma_eval_mod(c, z);
        lemma_eval_mod(c, root);
        lemma_ruffini(c, root, z);
        let p = poly_eval(qf, z);
        // p == eval_int(qf, z) % R == eval_int(qi, z) % R
        lemma_mul_mod_noop_right(p, z - root, fr_ord());
        // fmul(p, fsub(z, root)) == (p * (z - root)) % R
        lemma_mod_twice(eval_int(qi, z), fr_ord());
        lemma_mul_mod_noop_left(eval_int(qi, z), z - root, fr_ord());
        // == (eval_int(qi, z) * (z - root)) % R
        lemma_add_mod_noop(eval_int(qi, z) * (z - root), eval_int(c, root), fr_ord());
        lemma_mod_twice(eval_int(c, root), fr_ord());
        lemma_mod_twice(eval_int(qi, z) * (z - root), fr_ord());
    }
}

/// Exact division: when `root` is a root of `c`, the synthetic-division
/// quotient reconstructs `c` exactly — `c(z) == quotient(z) * (z - root)`
/// at every point `z` of the field.
pub proof fn lemma_exact_division(c: Seq<int>, root: int, z: int)
    requires
        poly_eval(c, root) == 0,
    ensures
        poly_eval(c, z) == fmul(poly_eval(linear_quotient(c, root), z), fsub(z, root)),
{
    lemma_synthetic_division(c, root, z);
    let x = poly_eval(linear_quotient(c, root), z) * fsub(z, root);
    lemma_residue_in_fr(x);
    lemma_small_residue(x % fr_ord());
}

/// A constant polynomial evaluates to its constant, at every point.
pub proof fn lemma_eval_constant(a: int, z: int)
    requires
        in_fr(a),
    ensures
        poly_eval(seq![a], z) == a,
{
    let c = seq![a];
    assert(c.skip(1) =~= Seq::<int>::empty());
    lemma_small_residue(0);
    lemma_small_residue(a);
    assert(poly_eval(c.skip(1), z) == 0);
    assert(fmul(z, 0) == 0);
    assert(poly_eval(c, z) == fadd(a, 0));
}

impl Polynomial {
    /// Evaluate the polynomial at `z` by Horner's rule.
    pub fn evaluate(&self, z: &Scalar) -> (r: Scalar)
        ensures
            r@ == poly_eval(self@, z@),
    {
        let mut acc = Scalar::zero();
        let mut i: usize = self.coeffs.len();
        assert(self@.skip(i as int) =~= Seq::<int>::empty());
        while i > 0
            invariant
                i <= self.coeffs.len(),
                acc@ == poly_eval(self@.skip(i as int), z@),
            decreases i,
        {
            i = i - 1;
            acc = fr_add(&self.coeffs[i], &fr_mul(z, &acc));
            assert(self@.skip(i as int).skip(1) =~= self@.skip(i as int + 1));
        }
        assert(self@.skip(0) =~= self@);
        acc
    }
}

/// Divide `poly` by the linear factor `(X - root)` by synthetic division,
/// discarding the remainder. The quotient reconstructs the dividend exactly
/// when `root` is a root of `poly` (`lemma_exact_division`); otherwise the
/// quotient is still produced and the remainder is silently dropped.
pub fn divide_by_linear(poly: &Polynomial, root: &Scalar) -> (q: Polynomial)
    ensures
        q@ == linear_quotient(poly@, root@),
{
    let n = poly.coeffs.len();
    if n <= 1 {
        let q = Polynomial { coeffs: Vec::new() };
        assert(q@ =~= linear_quotient(poly@, root@));
        return q;
    }
    let mut qc: Vec<Scalar> = Vec::new();
    let mut j: usize = 0;
    while j < n - 1
        invariant
            j <= n - 1,
            qc@.len() == j,
        decreases n - 1 - j,
    {
        qc.push(Scalar::zero());
        j = j + 1;
    }
    let top: Scalar = poly.coeffs[n - 1];
    proof {
        use_type_invariant(&top);
        lemma_small_residue(0);
        lemma_small_residue(top@);
        assert(poly@.skip(n as int) =~= Seq::<int>::empty());
        assert(poly@.skip(n - 1).skip(1) =~= poly@.skip(n as int));
        assert(poly_eval(poly@.skip(n as int), root@) == 0);
        assert(fmul(root@, 0) == 0);
        assert(poly@.skip(n - 1)[0] == top@);
        assert(poly_eval(poly@.skip(n - 1), root@) == fadd(
            top@,
            fmul(root@, poly_eval(poly@.skip(n - 1).skip(1), root@)),
        ));
        assert(poly_eval(poly@.skip(n - 1), root@) == top@);
    }
    qc.set(n - 2, top);
    let mut i: usize = n - 2;
    while i > 0
        invariant
            i <= n - 2,
            n == poly.coeffs.len(),
            n >= 2,
            qc@.len() == n - 1,
            forall|k: int|
                i <= k < n - 1 ==> qc@[k]@ == poly_eval(poly@.skip(k + 1), root@),
        decreases i,
    {
        i = i - 1;
        let prev: Scalar = qc[i + 1];
        let v = fr_add(&poly.coeffs[i + 1], &fr_mul(root, &prev));
        qc.set(i, v);
        proof {
            assert(poly@.skip(i as int + 1).skip(1) =~= poly@.skip(i as int + 2));
        }
    }
    let q = Polynomial { coeffs: qc };
    assert(q@ =~= linear_quotient(poly@, root@));
    q
}

/// The coefficient of `s` at `k`, or zero past the end.
pub open spec fn coeff_or_zero(s: Seq<int>, k: int) -> int {
    if 0 <= k < s.len() {
        s[k]
    } else {
        0
    }
}

/// Coefficientwise field subtraction, padding the shorter side with zeros.
pub open spec fn poly_sub_coeffs(a: Seq<int>, b: Seq<int>) -> Seq<int> {
    Seq::new(
        if a.len() >= b.len() {
            a.len()
        } else {
            b.len()
        },
        |k: int| fsub(coeff_or_zero(a, k), coeff_or_zero(b, k)),
    )
}

/// Integer term `a[i] * b[k - i]` of the convolution at `k`, zero out of range.
pub open spec fn conv_term(a: Seq<int>, b: Seq<int>, k: int, i: int) -> int {
    if 0 <= i < a.len() && 0 <= k - i < b.len() {
        a[i] * b[k - i]
    } else {
        0
    }
}

/// Partial integer convolution at `k`: the sum of `conv_term` over `i < n`.
pub open spec fn conv_upto(a: Seq<int>, b: Seq<int>, k: int, n: int) -> int
    decreases n,
{
    if n <= 0 {
        0
    } else {
        conv_upto(a, b, k, n - 1) + conv_term(a, b, k, n - 1)
    }
}

/// The product polynomial: coefficient `k` is the full convolution at `k`,
/// reduced into the field. The product of anything with the empty (zero)
/// polynomial is empty.
pub open spec fn poly_mul_coeffs(a: Seq<int>, b: Seq<int>) -> Seq<int> {
    if a.len() == 0 || b.len() == 0 {
        Seq::empty()
    } else {
        Seq::new(
            (a.len() + b.len() - 1) as nat,
            |k: int| conv_upto(a, b, k, a.len() as int) % fr_ord(),
        )
    }
}

/// Multiply two polynomials by schoolbook convolution.
pub fn mul_poly(a: &Polynomial, b: &Polynomial) -> (r: Polynomial)
    requires
        a@.len() + b@.len() <= usize::MAX,
    ensures
        r@ == poly_mul_coeffs(a@, b@),
{
    let n = a.coeffs.len();
    let m = b.coeffs.len();
    if n == 0 || m == 0 {
        let r = Polynomial { coeffs: Vec::new() };
        assert(r@ =~= poly_mul_coeffs(a@, b@));
        return r;
    }
    let len = n + m - 1;
    let mut res: Vec<Scalar> = Vec::new();
    let mut j: usize = 0;
    while j < len
        invariant
            j <= len,
            res@.len() == j,
            forall|k: int| 0 <= k < j ==> res@[k]@ == 0,
        decreases len - j,
    {
        res.push(Scalar::zero());
        j = j + 1;
    }
    proof {
        lemma_small_residue(0);
    }
    let mut i: usize = 0;
    while i < n
        invariant
            i <= n,
            n == a.coeffs.len(),
            m == b.coeffs.len(),
            n >= 1,
            m >= 1,
            len == n + m - 1,
            res@.len() == len,
            forall|k: int|
                0 <= k < len ==> res@[k]@ == conv_upto(a@, b@, k, i as int) % fr_ord(),
        decreases n - i,
    {
        let mut jj: usize = 0;
        while jj < m
            invariant
                jj <= m,
                i < n,
                n == a.coeffs.len(),
                m == b.coeffs.len(),
                len == n + m - 1,
                res@.len() == len,
                forall|k: int|
                    0 <= k < i + jj ==> res@[k]@ == conv_upto(a@, b@, k, i as int + 1)
                        % fr_ord(),
                forall|k: int|
                    i + jj <= k < len ==> res@[k]@ == conv_upto(a@, b@, k, i as int)
                        % fr_ord(),
            decreases m - jj,
        {
            let t = fr_mul(&a.coeffs[i], &b.coeffs[jj]);
            let cur: Scalar = res[i + jj];
            let s = fr_add(&cur, &t);
            res.set(i + jj, s);
            proof {
                let k: int = i + jj;
                lemma_add_mod_noop(conv_upto(a@, b@, k, i as int), a@[i as int] * b@[k
                    - i], fr_ord());
                lemma_mod_twice(conv_upto(a@, b@, k, i as int), fr_ord());
                lemma_mod_twice(a@[i as int] * b@[k - i], fr_ord());
                assert(conv_term(a@, b@, k, i as int) == a@[i as int] * b@[k - i]);
                assert forall|kk: int| 0 <= kk < len && kk != k implies conv_upto(
                    a@,
                    b@,
                    kk,
                    i as int + 1,
                ) == conv_upto(a@, b@, kk, i as int) + conv_term(a@, b@, kk, i as int) by {}
            }
            jj = jj + 1;
        }
        proof {
            assert forall|k: int| i + m <= k < len implies conv_upto(a@, b@, k, i as int + 1)
                == conv_upto(a@, b@, k, i as int) by {
                assert(conv_term(a@, b@, k, i as int) == 0);
            }
        }
        i = i + 1;
    }
    let r = Polynomial { coeffs: res };
    assert(r@ =~= poly_mul_coeffs(a@, b@));
    r
}

/// Subtract `b` from `a` coefficientwise, padding with zeros.
pub fn sub_poly(a: &Polynomial, b: &Polynomial) -> (r: Polynomial)
    ensures
        r@ == poly_sub_coeffs(a@, b@),
{
    let n = a.coeffs.len();
    let m = b.coeffs.len();
    let len = if n >= m {
        n
    } else {
        m
    };
    let mut res: Vec<Scalar> = Vec::new();
    let mut k: usize = 0;
    while k < len
        invariant
            k <= len,
            n == a.coeffs.len(),
            m == b.coeffs.len(),
            len == if n >= m {
                n as int
            } else {
                m as int
            },
            res@.len() == k,
            forall|j: int|
                0 <= j < k ==> res@[j]@ == fsub(coeff_or_zero(a@, j), coeff_or_zero(b@, j)),
        decreases len - k,
    {
        let av = if k < n {
            a.coeffs[k]
        } else {
            Scalar::zero()
        };
        let bv = if k < m {
            b.coeffs[k]
        } else {
            Scalar::zero()
        };
        res.push(fr_sub(&av, &bv));
        k = k + 1;
    }
    let r = Polynomial { coeffs: res };
    assert(r@ =~= poly_sub_coeffs(a@, b@));
    r
}

} // verus!
