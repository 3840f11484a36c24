//! Proving/verification dispatcher.
//!
//! The cryptographic work — groth16 proving and verification over
//! pairings — belongs to the external proving library, which reads the
//! compiled key material from disk; this core takes every decision
//! around it.  A call is split into a *plan* and a *finish*: planning
//! looks the circuit up in the registry, runs the witness engine
//! adapter and fixes which backend routine must run over which
//! assignment, failing fast with the staged errors; finishing takes
//! the external routine's outcome as a value and maps it onto the
//! caller-facing result.  No function here computes or judges a proof:
//! the verdict inside a [`VerifierOutcome`] is the external verifier's
//! alone, passed through unchanged.

use vstd::prelude::*;

use crate::error::{MoproError, WitnessError};
use crate::field::Fp;
use crate::registry::{reg_lookup, CircuitRegistry, EntryModel};
use crate::repr::{CircomProof, CircomProofResult, ProofLib, ProofResultModel};
use crate::witness::{compute_witness, public_count, public_count_exec, spec_compute, WitnessKind};

verus! {

/// The final path segment: everything after the last `/`, or the whole
/// path when it has none.  This is the identifier circuits are
/// registered under.
pub open spec fn file_name_of(path: Seq<char>) -> Seq<char>
    decreases path.len(),
{
    if path.len() == 0 {
        Seq::empty()
    } else if path[path.len() - 1] == '/' {
        Seq::empty()
    } else {
        file_name_of(path.drop_last()).push(path[path.len() - 1])
    }
}

proof fn lemma_file_name_suffix(s: Seq<char>, j: int)
    requires
        0 <= j <= s.len(),
        forall|k: int| j <= k < s.len() ==> s[k] != '/',
        j > 0 ==> s[j - 1] == '/',
    ensures
        file_name_of(s) == s.subrange(j, s.len() as int),
    decreases s.len(),
{
    if j == s.len() {
        assert(file_name_of(s) =~= s.subrange(j, s.len() as int));
    } else {
        assert(s[s.len() - 1] != '/');
        lemma_file_name_suffix(s.drop_last(), j);
        assert(s.drop_last().subrange(j, s.drop_last().len() as int) =~= s.subrange(
            j,
            s.len() - 1,
        ));
        assert(s.subrange(j, s.len() - 1).push(s[s.len() - 1]) =~= s.subrange(
            j,
            s.len() as int,
        ));
    }
}

/// Extracts the circuit identifier from a key-material path.
pub fn file_name(path: &str) -> (r: String)
    ensures
        r@ == file_name_of(path@),
{
    let n = path.unicode_len();
    let mut j: usize = 0;
    let mut i: usize = 0;
    while i < n
        invariant
            i <= n,
            j <= i,
            n == path@.len(),
            forall|k: int| j <= k < i ==> path@[k] != '/',
            j > 0 ==> path@[j - 1] == '/',
        decreases n - i,
    {
        if path.get_char(i) == '/' {
            j = i + 1;
        }
        i += 1;
    }
    proof {
        lemma_file_name_suffix(path@, j as int);
    }
    let tail = path.substring_char(j, n);
    String::from_str(tail)
}

/// Everything the external proving routine must be run with: the
/// circuit, the backend selector, the full wire assignment and the
/// public signals the circuit discloses.
pub struct ProvingPlan {
    pub kind: WitnessKind,
    pub lib: ProofLib,
    pub assignment: Vec<Fp>,
    pub public_signals: Vec<Fp>,
}

/// Mathematical model of a [`ProvingPlan`].
#[verifier::ext_equal]
pub struct PlanModel {
    pub kind: WitnessKind,
    pub lib: ProofLib,
    pub assignment: Seq<Fp>,
    pub public_signals: Seq<Fp>,
}

impl View for ProvingPlan {
    type V = PlanModel;

    open spec fn view(&self) -> PlanModel {
        PlanModel {
            kind: self.kind,
            lib: self.lib,
            assignment: self.assignment@,
            public_signals: self.public_signals@,
        }
    }
}

/// What the external proving routine reported back: the proof's curve
/// points, or which stage of its work failed.
#[derive(Clone, Copy, Debug, PartialEq, Eq, Structural)]
pub enum ProverOutcome {
    /// The routine returned these curve points.
    Proof(CircomProof),
    /// The key material could not be read or was malformed.
    UnreadableKey,
    /// The routine failed internally.
    Failure,
}

/// What the external verification routine reported back.
#[derive(Clone, Copy, Debug, PartialEq, Eq, Structural)]
pub enum VerifierOutcome {
    /// The routine judged the proof: valid or invalid is a verdict,
    /// never an error.
    Verdict(bool),
    /// The key material could not be read or was malformed.
    UnreadableKey,
    /// The routine could not consume the proof at all.
    Malformed,
}

/// The proving-path decisions: registry lookup, then the witness
/// engine; the first failing stage's error is the result, and no later
/// stage is reached.
pub open spec fn spec_plan_generate(
    reg: Seq<EntryModel>,
    path: Seq<char>,
    inputs: Seq<char>,
    lib: ProofLib,
) -> Result<PlanModel, MoproError> {
    match reg_lookup(reg, file_name_of(path)) {
        None => Err(MoproError::UnknownCircuit),
        Some(kind) => match spec_compute(kind, inputs) {
            None => Err(MoproError::Witness(WitnessError::InvalidInput)),
            Some(w) => Ok(
                PlanModel {
                    kind,
                    lib,
                    assignment: w,
                    public_signals: w.subrange(1, 1 + public_count(kind) as int),
                },
            ),
        },
    }
}

/// The verification-path decisions: registry lookup, then the shape
/// check — a proof whose public-signal count does not match the
/// circuit is wrong-shaped and an error, before any routine runs.
pub open spec fn spec_plan_verify(
    reg: Seq<EntryModel>,
    path: Seq<char>,
    res: ProofResultModel,
) -> Result<WitnessKind, MoproError> {
    match reg_lookup(reg, file_name_of(path)) {
        None => Err(MoproError::UnknownCircuit),
        Some(kind) => if res.inputs.len() != public_count(kind) {
            Err(MoproError::VerificationError)
        } else {
            Ok(kind)
        },
    }
}

/// How a prover outcome maps onto the caller-facing result: the
/// returned points are wrapped with the plan's public signals; each
/// failure keeps its stage's error.
pub open spec fn spec_finish_generate(plan: PlanModel, outcome: ProverOutcome) -> Result<
    ProofResultModel,
    MoproError,
> {
    match outcome {
        ProverOutcome::Proof(points) => Ok(
            ProofResultModel { proof: points, inputs: plan.public_signals },
        ),
        ProverOutcome::UnreadableKey => Err(MoproError::KeyLoadError),
        ProverOutcome::Failure => Err(MoproError::ProvingError),
    }
}

/// How a verifier outcome maps onto the caller-facing result: the
/// verdict passes through as the boolean, untouched; each failure
/// keeps its stage's error.
pub open spec fn spec_finish_verify(outcome: VerifierOutcome) -> Result<bool, MoproError> {
    match outcome {
        VerifierOutcome::Verdict(b) => Ok(b),
        VerifierOutcome::UnreadableKey => Err(MoproError::KeyLoadError),
        VerifierOutcome::Malformed => Err(MoproError::VerificationError),
    }
}

/// Plans one proving call: resolves the circuit registered under the
/// final segment of `zkey_path`, validates the JSON inputs and
/// computes the wire assignment, or fails with that stage's error.
pub fn plan_generate(
    reg: &CircuitRegistry,
    zkey_path: &String,
    circuit_inputs: &String,
    lib: ProofLib,
) -> (r: Result<ProvingPlan, MoproError>)
    ensures
        match r {
            Ok(p) => spec_plan_generate(reg@, zkey_path@, circuit_inputs@, lib) == Ok::<
                PlanModel,
                MoproError,
            >(p@),
            Err(e) => spec_plan_generate(reg@, zkey_path@, circuit_inputs@, lib) == Err::<
                PlanModel,
                MoproError,
            >(e),
        },
{
    let name = file_name(zkey_path.as_str());
    let kind = match reg.lookup(&name) {
        Some(k) => k,
        None => {
            return Err(MoproError::UnknownCircuit);
        },
    };
    let assignment = match compute_witness(kind, circuit_inputs.as_str()) {
        Ok(w) => w,
        Err(e) => {
            return Err(MoproError::Witness(e));
        },
    };
    let pc = public_count_exec(kind);
    proof {
        assert(assignment@.len() == 4);
    }
    let mut public_signals: Vec<Fp> = Vec::new();
    let mut i: usize = 0;
    proof {
        assert(public_signals@ =~= assignment@.subrange(1, 1));
    }
    while i < pc
        invariant
            i <= pc,
            pc < assignment@.len(),
            public_signals@ == assignment@.subrange(1, 1 + i as int),
        decreases pc - i,
    {
        public_signals.push(assignment[1 + i]);
        proof {
            assert(assignment@.subrange(1, 2 + i as int) =~= assignment@.subrange(
                1,
                1 + i as int,
            ).push(assignment@[1 + i as int]));
        }
        i += 1;
    }
    let plan = ProvingPlan { kind, lib, assignment, public_signals };
    proof {
        assert(Ok::<PlanModel, MoproError>(plan@) == spec_plan_generate(
            reg@,
            zkey_path@,
            circuit_inputs@,
            lib,
        )) by {
            assert(plan@ =~= spec_plan_generate(reg@, zkey_path@, circuit_inputs@, lib)->Ok_0);
        }
    }
    Ok(plan)
}

/// Plans one verification call: resolves the circuit registered under
/// the final segment of `zkey_path` and checks the proof's shape
/// against it.
pub fn plan_verify(reg: &CircuitRegistry, zkey_path: &String, result: &CircomProofResult) -> (r:
    Result<WitnessKind, MoproError>)
    ensures
        r == spec_plan_verify(reg@, zkey_path@, result@),
{
    let name = file_name(zkey_path.as_str());
    let kind = match reg.lookup(&name) {
        Some(k) => k,
        None => {
            return Err(MoproError::UnknownCircuit);
        },
    };
    if result.inputs.len() != public_count_exec(kind) {
        return Err(MoproError::VerificationError);
    }
    Ok(kind)
}

/// Finishes one proving call from the external routine's outcome.
pub fn finish_generate(plan: ProvingPlan, outcome: ProverOutcome) -> (r: Result<
    CircomProofResult,
    MoproError,
>)
    ensures
        match r {
            Ok(p) => spec_finish_generate(plan@, outcome) == Ok::<ProofResultModel, MoproError>(
                p@,
            ),
            Err(e) => spec_finish_generate(plan@, outcome) == Err::<ProofResultModel, MoproError>(
                e,
            ),
        },
{
    match outcome {
        ProverOutcome::Proof(points) => {
            let res = CircomProofResult { proof: points, inputs: plan.public_signals };
            proof {
                assert(res@ =~= spec_finish_generate(plan@, outcome)->Ok_0);
            }
            Ok(res)
        },
        ProverOutcome::UnreadableKey => Err(MoproError::KeyLoadError),
        ProverOutcome::Failure => Err(MoproError::ProvingError),
    }
}

/// Finishes one verification call from the external routine's outcome.
pub fn finish_verify(outcome: VerifierOutcome) -> (r: Result<bool, MoproError>)
    ensures
        r == spec_finish_verify(outcome),
{
    match outcome {
        VerifierOutcome::Verdict(b) => Ok(b),
        VerifierOutcome::UnreadableKey => Err(MoproError::KeyLoadError),
        VerifierOutcome::Malformed => Err(MoproError::VerificationError),
    }
}

} // verus!
