//! The prover's secret input and the wire values derived from it.

use vstd::prelude::*;
use crate::field::{fneg, Scalar};

verus! {

/// The three wire values fed to a gate.
#[derive(Clone, Debug)]
pub struct WireValues {
    pub a: Scalar,
    pub b: Scalar,
    pub c: Scalar,
}

/// The secret witness: one field element.
#[derive(Clone, Debug)]
pub struct Witness {
    pub x: Scalar,
}

impl Witness {
    /// A witness from a small unsigned integer.
    pub fn new(x: u64) -> (r: Witness)
        ensures
            r.x@ == x as int,
    {
        Witness { x: Scalar::from_u64(x) }
    }

    /// A witness from a small signed integer; a negative input maps to the
    /// additive inverse of its magnitude in the field.
    pub fn new_signed(x: i64) -> (r: Witness)
        ensures
            x >= 0 ==> r.x@ == x as int,
            x < 0 ==> r.x@ == fneg(-(x as int)),
    {
        Witness { x: Scalar::from_i64(x) }
    }
}

} // verus!
