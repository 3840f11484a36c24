//! Laws of the dispatch core, stated over the same specification
//! functions the executable contracts use.
//!
//! They cover the dispatcher's own share of the system's behaviour:
//! error staging, determinism of the witness step, and shape
//! acceptance.  What a proof is worth — whether the external groth16
//! verifier answers `true` to a generated proof and `false` to a
//! tampered one — is the external backend's to decide and is not
//! stated here: the dispatcher only passes that verdict through.

use vstd::prelude::*;

use crate::circom::{
    file_name_of, spec_finish_generate, spec_plan_generate, spec_plan_verify, PlanModel,
    ProverOutcome,
};
use crate::error::{MoproError, WitnessError};
use crate::registry::{lemma_lookup_contains, reg_contains, reg_lookup, EntryModel};
use crate::repr::{CircomProof, ProofLib, ProofResultModel};
use crate::witness::{spec_compute, WitnessKind};

verus! {

/// Fail fast on unknown circuits: when the path's final segment is not
/// registered, both operations fail with `UnknownCircuit` — before the
/// witness engine, the key material or any external routine is
/// reached.
pub proof fn lemma_unknown_circuit(
    reg: Seq<EntryModel>,
    path: Seq<char>,
    inputs: Seq<char>,
    lib: ProofLib,
    res: ProofResultModel,
)
    requires
        !reg_contains(reg, file_name_of(path)),
    ensures
        spec_plan_generate(reg, path, inputs, lib) == Err::<PlanModel, MoproError>(
            MoproError::UnknownCircuit,
        ),
        spec_plan_verify(reg, path, res) == Err::<WitnessKind, MoproError>(
            MoproError::UnknownCircuit,
        ),
{
    lemma_lookup_contains(reg, file_name_of(path));
}

/// Malformed inputs stop at the witness stage: when the circuit is
/// registered but its witness engine rejects the inputs, planning
/// fails with `InvalidInput` and no proving routine is ever selected.
pub proof fn lemma_invalid_input(
    reg: Seq<EntryModel>,
    path: Seq<char>,
    inputs: Seq<char>,
    lib: ProofLib,
    kind: WitnessKind,
)
    requires
        reg_lookup(reg, file_name_of(path)) == Some(kind),
        spec_compute(kind, inputs) is None,
    ensures
        spec_plan_generate(reg, path, inputs, lib) == Err::<PlanModel, MoproError>(
            MoproError::Witness(WitnessError::InvalidInput),
        ),
{
}

/// The witness step is deterministic: for a fixed circuit path, fixed
/// inputs and fixed backend, any two successful plans carry the same
/// assignment and the same public signals.  (The proof encoding itself
/// may still be randomized by the backend.)
pub proof fn lemma_plan_deterministic(
    reg: Seq<EntryModel>,
    path: Seq<char>,
    inputs: Seq<char>,
    lib: ProofLib,
    plan1: PlanModel,
    plan2: PlanModel,
)
    requires
        spec_plan_generate(reg, path, inputs, lib) == Ok::<PlanModel, MoproError>(plan1),
        spec_plan_generate(reg, path, inputs, lib) == Ok::<PlanModel, MoproError>(plan2),
    ensures
        plan1 == plan2,
{
}

/// The dispatcher never rejects its own product: whatever curve points
/// the external prover returns for a planned call, the wrapped result
/// passes the verification-path checks for the same circuit path, so
/// the round trip reaches the external verifier and its verdict.
pub proof fn lemma_generated_shape_accepted(
    reg: Seq<EntryModel>,
    path: Seq<char>,
    inputs: Seq<char>,
    lib: ProofLib,
    plan: PlanModel,
    points: CircomProof,
    res: ProofResultModel,
)
    requires
        spec_plan_generate(reg, path, inputs, lib) == Ok::<PlanModel, MoproError>(plan),
        spec_finish_generate(plan, ProverOutcome::Proof(points)) == Ok::<
            ProofResultModel,
            MoproError,
        >(res),
    ensures
        spec_plan_verify(reg, path, res) == Ok::<WitnessKind, MoproError>(plan.kind),
{
    let name = file_name_of(path);
    assert(reg_lookup(reg, name) is Some);
    let kind = reg_lookup(reg, name)->Some_0;
    let w = spec_compute(kind, inputs)->Some_0;
    assert(res.inputs == w.subrange(1, 1 + crate::witness::public_count(kind) as int));
}

/// Tampering with a well-shaped proof's curve points never turns
/// verification into an error: the dispatcher still hands the proof to
/// the external verifier, whose verdict — not an error — judges it.
pub proof fn lemma_tampered_points_still_judged(
    reg: Seq<EntryModel>,
    path: Seq<char>,
    res: ProofResultModel,
    tampered: ProofResultModel,
)
    requires
        spec_plan_verify(reg, path, res) is Ok,
        tampered.inputs == res.inputs,
    ensures
        spec_plan_verify(reg, path, tampered) == spec_plan_verify(reg, path, res),
{
}

} // verus!
