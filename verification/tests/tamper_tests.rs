use kzg_gate::circuit::SquareCircuit;
use kzg_gate::field::Scalar;
use kzg_gate::kzg::{commit, open};
use kzg_gate::poly::Polynomial;
use kzg_gate::prover::{prove, Proof};
use kzg_gate::setup::TrustedSetup;
use kzg_gate::verify::verify;
use kzg_gate::witness::Witness;

/// Mutating any single field of a correctly produced proof — any
/// commitment, any evaluation, any opening — makes verification fail.
#[test]
fn test_every_single_field_tamper_fails() {
    let setup = TrustedSetup::generate(10);
    let circuit = SquareCircuit::new();
    let witness = Witness::new(5);

    let honest = prove(&setup, &circuit, &witness);
    assert!(verify(&setup, &circuit, &honest));

    // An unrelated commitment and an unrelated opening to splice in.
    let other = Polynomial { coeffs: vec![Scalar::from_u64(9), Scalar::from_u64(4)] };
    let other_comm = commit(&setup, &other).unwrap();
    let z = Scalar::from_u64(7);
    let other_y = other.evaluate(&z);
    let other_opening = open(&setup, &other, z, other_y);
    let other_eval = Scalar::from_u64(424242);

    let tampered: [Proof; 12] = [
        Proof { a_comm: other_comm.clone(), ..honest.clone() },
        Proof { b_comm: other_comm.clone(), ..honest.clone() },
        Proof { c_comm: other_comm.clone(), ..honest.clone() },
        Proof { q_comm: other_comm.clone(), ..honest.clone() },
        Proof { a_eval: other_eval, ..honest.clone() },
        Proof { b_eval: other_eval, ..honest.clone() },
        Proof { c_eval: other_eval, ..honest.clone() },
        Proof { q_eval: other_eval, ..honest.clone() },
        Proof { a_opening: other_opening.clone(), ..honest.clone() },
        Proof { b_opening: other_opening.clone(), ..honest.clone() },
        Proof { c_opening: other_opening.clone(), ..honest.clone() },
        Proof { q_opening: other_opening.clone(), ..honest.clone() },
    ];
    for pf in tampered {
        assert!(!verify(&setup, &circuit, &pf));
    }
}
