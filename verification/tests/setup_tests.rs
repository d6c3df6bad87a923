use ark_bls12_381::{Bls12_381, G1Affine};
use ark_ec::pairing::Pairing;
use ark_ec::AffineRepr;
use kzg_gate::setup::TrustedSetup;

#[test]
fn test_setup_size() {
    let setup = TrustedSetup::generate(10);
    assert_eq!(setup.g1_powers.len(), 11);
    assert_eq!(setup.max_degree(), 10);
}

#[test]
fn test_first_power_is_generator() {
    let setup = TrustedSetup::generate(5);
    assert_eq!(setup.g1_powers[0].inner, G1Affine::generator());
}

#[test]
fn test_powers_are_consistent() {
    let setup = TrustedSetup::generate(5);

    for i in 0..setup.max_degree() {
        let lhs = Bls12_381::pairing(setup.g1_powers[i].inner, setup.g2_tau.inner);
        let rhs = Bls12_381::pairing(setup.g1_powers[i + 1].inner, setup.g2_gen.inner);
        assert_eq!(lhs, rhs, "Pairing check failed at power {}", i);
    }
}
