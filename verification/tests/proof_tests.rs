use kzg_gate::circuit::SquareCircuit;
use kzg_gate::field::Scalar;
use kzg_gate::poly::Polynomial;
use kzg_gate::prover::{compute_constraint_polynomial, divide_by_vanishing, prove};
use kzg_gate::setup::TrustedSetup;
use kzg_gate::witness::Witness;

#[test]
fn test_constraint_polynomial_is_zero_at_gate() {
    let circuit = SquareCircuit::new();
    let witness = Witness::new(5);
    let wires = circuit.wire_values(&witness);

    let a_poly = Polynomial { coeffs: vec![wires.a] };
    let b_poly = Polynomial { coeffs: vec![wires.b] };
    let c_poly = Polynomial { coeffs: vec![wires.c] };

    let t_poly = compute_constraint_polynomial(&a_poly, &b_poly, &c_poly);

    let t_at_one = t_poly.evaluate(&Scalar::from_u64(1));
    assert!(t_at_one == Scalar::zero());
}

#[test]
fn test_constraint_polynomial_nonzero_for_bad_witness() {
    let circuit = SquareCircuit::new();
    let witness = Witness::new(6);
    let wires = circuit.wire_values(&witness);

    let a_poly = Polynomial { coeffs: vec![wires.a] };
    let b_poly = Polynomial { coeffs: vec![wires.b] };
    let c_poly = Polynomial { coeffs: vec![wires.c] };

    let t_poly = compute_constraint_polynomial(&a_poly, &b_poly, &c_poly);

    let t_at_one = t_poly.evaluate(&Scalar::from_u64(1));
    assert!(t_at_one != Scalar::zero());
    assert_eq!(t_at_one, Scalar::from_u64(11));
}

#[test]
fn test_quotient_polynomial() {
    let circuit = SquareCircuit::new();
    let witness = Witness::new(5);
    let wires = circuit.wire_values(&witness);

    let a_poly = Polynomial { coeffs: vec![wires.a] };
    let b_poly = Polynomial { coeffs: vec![wires.b] };
    let c_poly = Polynomial { coeffs: vec![wires.c] };

    let t_poly = compute_constraint_polynomial(&a_poly, &b_poly, &c_poly);
    let q_poly = divide_by_vanishing(&t_poly, &Scalar::from_u64(1));

    let x = Scalar::from_u64(7);
    let t_at_x = t_poly.evaluate(&x);
    let q_at_x = q_poly.evaluate(&x);
    let vanishing_at_x = x.sub(&Scalar::from_u64(1));

    assert_eq!(t_at_x, q_at_x.mul(&vanishing_at_x));
}

#[test]
fn test_prove_creates_valid_structure() {
    let setup = TrustedSetup::generate(10);
    let circuit = SquareCircuit::new();
    let witness = Witness::new(5);

    let pf = prove(&setup, &circuit, &witness);

    assert_eq!(pf.a_eval, Scalar::from_u64(5));
    assert_eq!(pf.b_eval, Scalar::from_u64(5));
    assert_eq!(pf.c_eval, Scalar::from_u64(25));
}

#[test]
fn test_prove_with_negative_root() {
    let setup = TrustedSetup::generate(10);
    let circuit = SquareCircuit::new();
    let witness = Witness::new_signed(-5);

    let pf = prove(&setup, &circuit, &witness);

    let neg_five = Scalar::from_u64(5).neg();
    assert_eq!(pf.a_eval, neg_five);
    assert_eq!(pf.b_eval, neg_five);
    assert_eq!(pf.c_eval, Scalar::from_u64(25));
}
