//! A KZG polynomial commitment scheme over the BLS12-381 pairing curve,
//! composed into a minimal non-interactive argument that a hidden scalar
//! witness satisfies one fixed arithmetic gate.
//!
//! Scalar-field elements are carried as canonical four-limb residues and
//! modelled in specifications as integers in `[0, fr_ord())`; the heavy
//! curve arithmetic (multi-scalar multiplication, pairings, group scalar
//! multiplication) is delegated to the arkworks crates behind a small set
//! of trusted wrappers, while all polynomial logic — evaluation,
//! multiplication, subtraction and synthetic division — is verified here.

pub mod field;
pub mod poly;
pub mod curve;
pub mod setup;
pub mod kzg;
pub mod params;
pub mod gate;
pub mod witness;
pub mod circuit;
pub mod prover;
pub mod verify;
