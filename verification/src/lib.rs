//! Circuit registry and dispatch core for zero-knowledge proof bindings.
//!
//! The library keeps a table of compiled circuits, routes a caller's
//! circuit identifier and JSON inputs to the matching witness routine,
//! and normalizes proofs into a stable cross-language representation.

use vstd::prelude::*;

pub mod circom;
pub mod error;
pub mod field;
pub mod inputs;
pub mod laws;
pub mod registry;
pub mod repr;
pub mod witness;

pub use circom::{
    file_name, finish_generate, finish_verify, plan_generate, plan_verify, PlanModel,
    ProverOutcome, ProvingPlan, VerifierOutcome,
};
pub use error::{MoproError, RegistryError, WitnessError};
pub use field::Fp;
pub use inputs::{parse_inputs, render_inputs, Signal};
pub use registry::{default_registry, CircuitEntry, CircuitRegistry};
pub use repr::{CircomProof, CircomProofResult, ProofLib, ProofResultModel, G1, G2};
pub use witness::{compute_assignment, compute_witness, WitnessKind};

verus! {

/// Liveness probe: a fixed greeting confirming the binding layer loaded.
pub fn mopro_hello_world() -> (r: String)
    ensures
        r@ == "Hello, World!"@,
{
    "Hello, World!".to_owned()
}

/// Liveness probe for the web-compiled target; same fixed greeting.
pub fn mopro_wasm_hello_world() -> (r: String)
    ensures
        r@ == "Hello, World!"@,
{
    "Hello, World!".to_owned()
}

} // verus!
