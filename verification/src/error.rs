//! Error taxonomy of the dispatch core.
//!
//! Every stage of a proving or verification call surfaces its own error,
//! tagged with the stage it came from; "proof is invalid" is a boolean
//! result of verification, never an error.

use vstd::prelude::*;

verus! {

/// Failure of the witness engine adapter.
#[derive(Clone, Copy, Debug, PartialEq, Eq, Structural)]
pub enum WitnessError {
    /// The circuit inputs were malformed, or a required signal was
    /// missing or had the wrong shape.
    InvalidInput,
}

/// Failure of a registration call on a circuit registry.
#[derive(Clone, Copy, Debug, PartialEq, Eq, Structural)]
pub enum RegistryError {
    /// The identifier is already registered; duplicates are a
    /// configuration error rejected at registration time.
    DuplicateCircuit,
}

/// Error of a proving or verification call, tagged with the stage that
/// produced it.
#[derive(Clone, Copy, Debug, PartialEq, Eq, Structural)]
pub enum MoproError {
    /// The circuit identifier is not present in the registry.
    UnknownCircuit,
    /// The witness engine adapter rejected the inputs.
    Witness(WitnessError),
    /// The key material implied by the circuit identifier is malformed.
    KeyLoadError,
    /// The proving routine failed internally (e.g., an assignment whose
    /// shape does not match the key material).
    ProvingError,
    /// The verification routine was handed a wrong-shaped proof; never
    /// used for a proof that is merely invalid.
    VerificationError,
}

} // verus!
