use kzg_gate::circuit::SquareCircuit;
use kzg_gate::field::Scalar;
use kzg_gate::witness::Witness;

#[test]
fn test_wire_values() {
    let circuit = SquareCircuit::new();
    let witness = Witness::new(5);

    let wires = circuit.wire_values(&witness);

    assert_eq!(wires.a, Scalar::from_u64(5)); // left input = x
    assert_eq!(wires.b, Scalar::from_u64(5)); // right input = x
    assert_eq!(wires.c, Scalar::from_u64(25)); // output = 25
}
