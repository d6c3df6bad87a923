use kzg_gate::field::Scalar;
use kzg_gate::kzg::{commit, open, verify, KzgError};
use kzg_gate::poly::{divide_by_linear, Polynomial};
use kzg_gate::setup::TrustedSetup;

/// poly(&[1, 2, 3]) = 1 + 2x + 3x²
fn poly(coeffs: &[i64]) -> Polynomial {
    Polynomial { coeffs: coeffs.iter().map(|&c| Scalar::from_i64(c)).collect() }
}

#[test]
fn test_commit_and_verify_opening() {
    let setup = TrustedSetup::generate(10);

    // f(x) = 1 + 2x + 3x²
    let f = poly(&[1, 2, 3]);

    let commitment = commit(&setup, &f).unwrap();

    // f(5) = 1 + 2(5) + 3(25) = 1 + 10 + 75 = 86
    let z = Scalar::from_u64(5);
    let y = f.evaluate(&z);
    assert_eq!(y, Scalar::from_u64(86));

    let pf = open(&setup, &f, z, y);

    assert!(verify(&setup, &commitment, z, y, &pf));
}

#[test]
fn test_verify_rejects_wrong_evaluation() {
    let setup = TrustedSetup::generate(10);
    let f = poly(&[1, 2, 3]);

    let commitment = commit(&setup, &f).unwrap();

    let z = Scalar::from_u64(5);
    let correct_y = f.evaluate(&z);
    let wrong_y = Scalar::from_u64(87);

    let pf = open(&setup, &f, z, correct_y);

    assert!(verify(&setup, &commitment, z, correct_y, &pf));
    assert!(!verify(&setup, &commitment, z, wrong_y, &pf));
}

#[test]
fn test_verify_rejects_wrong_proof() {
    let setup = TrustedSetup::generate(10);

    let f = poly(&[1, 2, 3]);
    let g = poly(&[5, 6, 7]);

    let commitment_f = commit(&setup, &f).unwrap();

    let z = Scalar::from_u64(5);
    let y_f = f.evaluate(&z);

    let wrong_proof = open(&setup, &g, z, g.evaluate(&z));

    assert!(!verify(&setup, &commitment_f, z, y_f, &wrong_proof));
}

#[test]
fn test_constant_polynomial() {
    let setup = TrustedSetup::generate(10);

    let f = poly(&[42]);

    let commitment = commit(&setup, &f).unwrap();

    let z = Scalar::from_u64(999);
    let y = Scalar::from_u64(42);

    let pf = open(&setup, &f, z, y);

    assert!(verify(&setup, &commitment, z, y, &pf));
}

#[test]
fn test_linear_polynomial() {
    let setup = TrustedSetup::generate(10);

    // f(x) = 3 + 7x
    let f = poly(&[3, 7]);

    let commitment = commit(&setup, &f).unwrap();

    // f(10) = 3 + 70 = 73
    let z = Scalar::from_u64(10);
    let y = f.evaluate(&z);
    assert_eq!(y, Scalar::from_u64(73));

    let pf = open(&setup, &f, z, y);

    assert!(verify(&setup, &commitment, z, y, &pf));
}

#[test]
fn test_divide_by_linear() {
    // (x² - 1) / (x - 1) = x + 1
    let numerator = poly(&[-1, 0, 1]);
    let root = Scalar::from_u64(1);

    let quotient = divide_by_linear(&numerator, &root);

    let expected = poly(&[1, 1]);
    assert_eq!(quotient.coeffs, expected.coeffs);
}

#[test]
fn test_commit_rejects_oversized_polynomial() {
    let setup = TrustedSetup::generate(10);

    // 12 coefficients: degree 11 exceeds the capacity of an SRS for degree 10.
    let f = poly(&[1, 2, 3, 4, 5, 6, 7, 8, 9, 10, 11, 12]);
    assert!(matches!(commit(&setup, &f), Err(KzgError::DegreeExceeded)));

    // 11 coefficients: degree 10 is exactly at capacity.
    let g = poly(&[1, 2, 3, 4, 5, 6, 7, 8, 9, 10, 11]);
    assert!(commit(&setup, &g).is_ok());
}

#[test]
fn test_opening_random_polynomials() {
    let mut state: u64 = 0x9e3779b97f4a7c15;
    let setup = TrustedSetup::generate(10);
    for round in 0..5u64 {
        let mut coeffs: Vec<Scalar> = Vec::new();
        for _ in 0..=round {
            // a small splitmix-style generator keeps the test deterministic
            state = state.wrapping_mul(6364136223846793005).wrapping_add(round + 1);
            coeffs.push(Scalar::from_u64(state));
        }
        let f = Polynomial { coeffs };
        let commitment = commit(&setup, &f).unwrap();
        state = state.wrapping_mul(6364136223846793005).wrapping_add(17);
        let z = Scalar::from_u64(state);
        let y = f.evaluate(&z);
        let pf = open(&setup, &f, z, y);
        assert!(verify(&setup, &commitment, z, y, &pf));
        let wrong_y = y.add(&Scalar::one());
        assert!(!verify(&setup, &commitment, z, wrong_y, &pf));
    }
}
