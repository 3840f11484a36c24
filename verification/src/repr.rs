//! Proof representation: the unit exchanged across the binding boundary.
//!
//! A proof is an ordered collection of curve points (a G1 pair, a G2
//! point with extension-field components, and a closing G1 point) plus
//! an ordered sequence of public-signal field elements.  The field
//! layout is a wire contract: every coordinate and public signal is a
//! 256-bit field element of four 64-bit limbs, and their order is
//! fixed.

use vstd::prelude::*;

use crate::field::Fp;

verus! {

/// Selector for the proving backend.  The variants are mutually
/// exclusive; a proof generated under one variant must be verified
/// under the same variant.
#[derive(Clone, Copy, Debug, PartialEq, Eq, Structural)]
pub enum ProofLib {
    Arkworks,
    Rapidsnark,
}

/// A point on the curve's base field: two fixed-width coordinates.
#[derive(Clone, Copy, Debug, PartialEq, Eq, Structural)]
pub struct G1 {
    pub x: Fp,
    pub y: Fp,
}

/// A point on the curve's extension field: four fixed-width
/// coordinates, two per extension-field component.
#[derive(Clone, Copy, Debug, PartialEq, Eq, Structural)]
pub struct G2 {
    pub x0: Fp,
    pub x1: Fp,
    pub y0: Fp,
    pub y1: Fp,
}

/// The ordered curve points of one proof.
#[derive(Clone, Copy, Debug, PartialEq, Eq, Structural)]
pub struct CircomProof {
    pub a: G1,
    pub b: G2,
    pub c: G1,
}

/// A complete proof as returned to the caller: the curve points plus
/// the ordered public signals.  Immutable once constructed; owned by
/// the caller after it crosses the binding boundary.
#[derive(Clone, Debug, PartialEq, Eq)]
pub struct CircomProofResult {
    pub proof: CircomProof,
    pub inputs: Vec<Fp>,
}

/// Mathematical model of a [`CircomProofResult`].
#[verifier::ext_equal]
pub struct ProofResultModel {
    pub proof: CircomProof,
    pub inputs: Seq<Fp>,
}

impl View for CircomProofResult {
    type V = ProofResultModel;

    open spec fn view(&self) -> ProofResultModel {
        ProofResultModel { proof: self.proof, inputs: self.inputs@ }
    }
}

} // verus!
