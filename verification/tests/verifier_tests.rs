use kzg_gate::circuit::SquareCircuit;
use kzg_gate::field::Scalar;
use kzg_gate::prover::prove;
use kzg_gate::setup::TrustedSetup;
use kzg_gate::verify::verify;
use kzg_gate::witness::Witness;

#[test]
fn test_valid_proof_verifies() {
    let setup = TrustedSetup::generate(10);
    let circuit = SquareCircuit::new();
    let witness = Witness::new(5);

    let pf = prove(&setup, &circuit, &witness);
    assert!(verify(&setup, &circuit, &pf));
}

#[test]
fn test_valid_proof_negative_root() {
    let setup = TrustedSetup::generate(10);
    let circuit = SquareCircuit::new();
    let witness = Witness::new_signed(-5);

    let pf = prove(&setup, &circuit, &witness);
    assert!(verify(&setup, &circuit, &pf));
}

#[test]
fn test_invalid_witness_fails_verification() {
    let setup = TrustedSetup::generate(10);
    let circuit = SquareCircuit::new();
    let witness = Witness::new(6);

    let pf = prove(&setup, &circuit, &witness);
    assert!(!verify(&setup, &circuit, &pf));
}

#[test]
fn test_tampered_evaluation_fails() {
    let setup = TrustedSetup::generate(10);
    let circuit = SquareCircuit::new();
    let witness = Witness::new(5);

    let mut pf = prove(&setup, &circuit, &witness);
    pf.a_eval = Scalar::from_u64(999);

    assert!(!verify(&setup, &circuit, &pf));
}

#[test]
fn test_tampered_public_output_fails() {
    let setup = TrustedSetup::generate(10);
    let circuit = SquareCircuit::new();
    let witness = Witness::new(5);

    let pf = prove(&setup, &circuit, &witness);

    let wrong_circuit = SquareCircuit {
        gate: circuit.gate.clone(),
        public_output: Scalar::from_u64(100),
    };

    assert!(!verify(&setup, &wrong_circuit, &pf));
}
