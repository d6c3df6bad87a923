//! The fixed one-gate circuit `x · x = public_output`.

use vstd::prelude::*;
use crate::field::{fneg, Scalar};
use crate::gate::{gate_eval, Gate};
use crate::witness::{WireValues, Witness};

verus! {

/// A circuit of exactly one multiplication gate whose output wire is bound
/// to a public field element.
#[derive(Clone, Debug)]
pub struct SquareCircuit {
    pub gate: Gate,
    pub public_output: Scalar,
}

impl SquareCircuit {
    /// The `x² = 25` circuit: a multiplication gate with public output 25.
    pub fn new() -> (r: SquareCircuit)
        ensures
            r.gate.q_l@ == 0,
            r.gate.q_r@ == 0,
            r.gate.q_o@ == fneg(1),
            r.gate.q_m@ == 1,
            r.gate.q_c@ == 0,
            r.public_output@ == 25,
    {
        SquareCircuit { gate: Gate::multiplication(), public_output: Scalar::from_u64(25) }
    }

    /// The wire assignment this circuit derives from a witness: both inputs
    /// carry the witness, the output wire carries the public output.
    pub fn wire_values(&self, witness: &Witness) -> (w: WireValues)
        ensures
            w.a@ == witness.x@,
            w.b@ == witness.x@,
            w.c@ == self.public_output@,
    {
        WireValues { a: witness.x, b: witness.x, c: self.public_output }
    }

    /// Whether the witness satisfies this circuit's gate on the derived
    /// wire assignment.
    pub fn is_satisfied(&self, witness: &Witness) -> (r: bool)
        ensures
            r == (gate_eval(
                self.gate.q_l@,
                self.gate.q_r@,
                self.gate.q_o@,
                self.gate.q_m@,
                self.gate.q_c@,
                witness.x@,
                witness.x@,
                self.public_output@,
            ) == 0),
    {
        let wires = self.wire_values(witness);
        self.gate.is_satisfied(wires.a, wires.b, wires.c)
    }
}

impl Default for SquareCircuit {
    /// The default circuit is the `x² = 25` circuit.
    fn default() -> (r: Self)
        ensures
            r.gate.q_l@ == 0,
            r.gate.q_r@ == 0,
            r.gate.q_o@ == fneg(1),
            r.gate.q_m@ == 1,
            r.gate.q_c@ == 0,
            r.public_output@ == 25,
    {
        SquareCircuit::new()
    }
}

} // verus!
