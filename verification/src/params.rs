//! Fixed protocol parameters.
//!
//! The evaluation point and the vanishing root are hard-coded constants of
//! this protocol, not values derived from a transcript over the prover's
//! commitments. That is a deliberate soundness simplification: a production
//! variant would hash the commitments to derive the challenge, and changing
//! this would change the security model.

use vstd::prelude::*;

verus! {

/// The fixed challenge point `zeta` at which every wire polynomial and the
/// quotient polynomial are opened.
pub const CHALLENGE_POINT: u64 = 7;

/// The fixed root of the vanishing factor `(X - root)`: the single point of
/// the one-gate evaluation domain.
pub const VANISHING_ROOT: u64 = 1;

/// The challenge point as a canonical residue.
pub open spec fn challenge_point() -> int {
    CHALLENGE_POINT as int
}

/// The vanishing root as a canonical residue.
pub open spec fn vanishing_root() -> int {
    VANISHING_ROOT as int
}

} // verus!
