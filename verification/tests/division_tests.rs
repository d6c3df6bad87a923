use kzg_gate::field::Scalar;
use kzg_gate::poly::{divide_by_linear, Polynomial};

fn poly(coeffs: &[i64]) -> Polynomial {
    Polynomial { coeffs: coeffs.iter().map(|&c| Scalar::from_i64(c)).collect() }
}

/// Evaluation points used to spot-check the division identity.
const SAMPLE_POINTS: [u64; 6] = [0, 1, 2, 7, 12345, 123456789123456789];

#[test]
fn test_division_identity_for_exact_roots() {
    // Polynomials with f(1) = 0: the quotient reconstructs the dividend,
    // f(z) == q(z) * (z - 1) at every sampled point.
    let root = Scalar::from_u64(1);
    let cases: [&[i64]; 4] = [
        &[-5, 2, 2, 1],       // (x - 1)(x² + 3x + 5)
        &[-1, 0, 1],          // (x - 1)(x + 1)
        &[0, -7, 3, 4],       // x(x - 1)(4x + 7)
        &[6, -11, 6, -1],     // -(x - 1)(x - 2)(x - 3)
    ];
    for coeffs in cases {
        let f = poly(coeffs);
        assert_eq!(f.evaluate(&root), Scalar::zero());
        let q = divide_by_linear(&f, &root);
        for p in SAMPLE_POINTS {
            let z = Scalar::from_u64(p);
            let lhs = f.evaluate(&z);
            let rhs = q.evaluate(&z).mul(&z.sub(&root));
            assert_eq!(lhs, rhs);
        }
    }
}

#[test]
fn test_division_identity_with_remainder() {
    // For arbitrary f the remainder form holds:
    // f(z) == q(z) * (z - root) + f(root) at every sampled point.
    let root = Scalar::from_u64(3);
    let f = poly(&[9, -4, 17, 1, 22]);
    let q = divide_by_linear(&f, &root);
    let remainder = f.evaluate(&root);
    for p in SAMPLE_POINTS {
        let z = Scalar::from_u64(p);
        let lhs = f.evaluate(&z);
        let rhs = q.evaluate(&z).mul(&z.sub(&root)).add(&remainder);
        assert_eq!(lhs, rhs);
    }
}

#[test]
fn test_division_of_short_polynomials_is_empty() {
    let root = Scalar::from_u64(5);
    assert_eq!(divide_by_linear(&poly(&[]), &root).coeffs.len(), 0);
    assert_eq!(divide_by_linear(&poly(&[42]), &root).coeffs.len(), 0);
}
