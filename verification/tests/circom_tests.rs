//! The proving/verification dispatcher, exercised end to end with
//! injected prover and verifier outcomes standing for the external
//! routines.

use mopro_core::field::fp_from_u64;
use mopro_core::{
    default_registry, finish_generate, finish_verify, plan_generate, plan_verify, CircomProof,
    Fp, MoproError, ProofLib, ProverOutcome, VerifierOutcome, WitnessError, WitnessKind, G1, G2,
};

const ZKEY_PATH: &str = "./test-vectors/circom/multiplier2_final.zkey";

fn some_points() -> CircomProof {
    CircomProof {
        a: G1 { x: fp_from_u64(11), y: fp_from_u64(12) },
        b: G2 {
            x0: fp_from_u64(21),
            x1: fp_from_u64(22),
            y0: fp_from_u64(23),
            y1: fp_from_u64(24),
        },
        c: G1 { x: fp_from_u64(31), y: fp_from_u64(32) },
    }
}

#[test]
fn multiplier2_scenario_through_the_dispatcher() {
    // Planning computes the witness: public signals are exactly [6].
    let reg = default_registry();
    let inputs = "{\"a\": 2, \"b\": 3}".to_string();
    let plan = plan_generate(&reg, &ZKEY_PATH.to_string(), &inputs, ProofLib::Arkworks).unwrap();
    assert_eq!(plan.kind, WitnessKind::Multiplier2);
    assert_eq!(plan.lib, ProofLib::Arkworks);
    assert_eq!(
        plan.assignment,
        vec![fp_from_u64(1), fp_from_u64(6), fp_from_u64(2), fp_from_u64(3)]
    );
    assert_eq!(plan.public_signals, vec![fp_from_u64(6)]);

    // Whatever points the external prover returns are wrapped with the
    // plan's public signals.
    let result = finish_generate(plan, ProverOutcome::Proof(some_points())).unwrap();
    assert_eq!(result.proof, some_points());
    assert_eq!(result.inputs, vec![fp_from_u64(6)]);

    // The wrapped result passes the verification-path checks; the
    // verdict is the external verifier's, passed through unchanged.
    let kind = plan_verify(&reg, &ZKEY_PATH.to_string(), &result).unwrap();
    assert_eq!(kind, WitnessKind::Multiplier2);
    assert_eq!(finish_verify(VerifierOutcome::Verdict(true)), Ok(true));
    assert_eq!(finish_verify(VerifierOutcome::Verdict(false)), Ok(false));
}

#[test]
fn planning_is_deterministic() {
    let reg = default_registry();
    let inputs = "{\"a\": 41, \"b\": 271}".to_string();
    let p1 = plan_generate(&reg, &ZKEY_PATH.to_string(), &inputs, ProofLib::Arkworks).unwrap();
    let p2 = plan_generate(&reg, &ZKEY_PATH.to_string(), &inputs, ProofLib::Arkworks).unwrap();
    assert_eq!(p1.assignment, p2.assignment);
    assert_eq!(p1.public_signals, p2.public_signals);
    assert_eq!(p1.public_signals, vec![fp_from_u64(41 * 271)]);
}

#[test]
fn unknown_circuit_fails_fast_on_both_operations() {
    let reg = default_registry();
    let other = "./test-vectors/circom/other_final.zkey".to_string();
    let inputs = "{\"a\": 2, \"b\": 3}".to_string();
    let planned = plan_generate(&reg, &other, &inputs, ProofLib::Arkworks);
    assert!(matches!(planned, Err(MoproError::UnknownCircuit)));

    let plan = plan_generate(&reg, &ZKEY_PATH.to_string(), &inputs, ProofLib::Arkworks).unwrap();
    let result = finish_generate(plan, ProverOutcome::Proof(some_points())).unwrap();
    assert_eq!(plan_verify(&reg, &other, &result), Err(MoproError::UnknownCircuit));
}

#[test]
fn missing_signal_is_invalid_input() {
    let reg = default_registry();
    let planned = plan_generate(
        &reg,
        &ZKEY_PATH.to_string(),
        &"{\"a\": 2}".to_string(),
        ProofLib::Arkworks,
    );
    assert!(matches!(
        planned,
        Err(MoproError::Witness(WitnessError::InvalidInput))
    ));
}

#[test]
fn malformed_json_is_invalid_input() {
    let reg = default_registry();
    for bad in [
        "",
        "{",
        "{a: 2, b: 3}",
        "{\"a\": 2, \"b\": 3",
        "{\"a\": -2, \"b\": 3}",
        "{\"a\": 2, \"b\": 3} trailing",
    ] {
        let planned = plan_generate(
            &reg,
            &ZKEY_PATH.to_string(),
            &bad.to_string(),
            ProofLib::Arkworks,
        );
        assert!(
            matches!(planned, Err(MoproError::Witness(WitnessError::InvalidInput))),
            "input {:?} should be rejected",
            bad
        );
    }
}

#[test]
fn wrong_signal_shape_is_invalid_input() {
    let reg = default_registry();
    let planned = plan_generate(
        &reg,
        &ZKEY_PATH.to_string(),
        &"{\"a\": [2, 4], \"b\": 3}".to_string(),
        ProofLib::Arkworks,
    );
    assert!(matches!(
        planned,
        Err(MoproError::Witness(WitnessError::InvalidInput))
    ));
}

#[test]
fn quoted_and_array_scalars_are_accepted() {
    let reg = default_registry();
    let plan = plan_generate(
        &reg,
        &ZKEY_PATH.to_string(),
        &"{\"a\": [2], \"b\": \"3\"}".to_string(),
        ProofLib::Arkworks,
    )
    .unwrap();
    assert_eq!(plan.public_signals, vec![fp_from_u64(6)]);
}

#[test]
fn large_signals_survive_without_precision_loss() {
    // (2^64 - 1)^2 = 0xfffffffffffffffe_0000000000000001, past one limb.
    let reg = default_registry();
    let inputs = format!("{{\"a\": {}, \"b\": {}}}", u64::MAX, u64::MAX);
    let plan = plan_generate(&reg, &ZKEY_PATH.to_string(), &inputs, ProofLib::Arkworks).unwrap();
    assert_eq!(
        plan.public_signals,
        vec![Fp { l0: 1, l1: 0xfffffffffffffffe, l2: 0, l3: 0 }]
    );
}

#[test]
fn signals_past_two_to_the_sixty_four_are_exact() {
    // a = 2^64 as a plain decimal scalar, b = 2: the product is 2^65.
    let reg = default_registry();
    let inputs = "{\"a\": 18446744073709551616, \"b\": 2}".to_string();
    let plan = plan_generate(&reg, &ZKEY_PATH.to_string(), &inputs, ProofLib::Arkworks).unwrap();
    assert_eq!(plan.public_signals, vec![Fp { l0: 0, l1: 2, l2: 0, l3: 0 }]);
}

#[test]
fn signals_reduce_modulo_the_field() {
    // a = the BN254 scalar modulus plus one, so a is congruent to 1.
    let reg = default_registry();
    let inputs =
        "{\"a\": \"21888242871839275222246405745257275088548364400416034343698204186575808495618\", \"b\": 3}"
            .to_string();
    let plan = plan_generate(&reg, &ZKEY_PATH.to_string(), &inputs, ProofLib::Arkworks).unwrap();
    assert_eq!(plan.public_signals, vec![fp_from_u64(3)]);
}

#[test]
fn tampered_points_still_reach_the_verifier() {
    // Mutating a coordinate never turns the dispatch into an error:
    // the proof stays well-shaped and the external verifier judges it.
    let reg = default_registry();
    let inputs = "{\"a\": 7, \"b\": 9}".to_string();
    let plan = plan_generate(&reg, &ZKEY_PATH.to_string(), &inputs, ProofLib::Arkworks).unwrap();
    let result = finish_generate(plan, ProverOutcome::Proof(some_points())).unwrap();
    let mut tampered = result.clone();
    tampered.proof.a.x.l0 = tampered.proof.a.x.l0.wrapping_add(1);
    assert_eq!(
        plan_verify(&reg, &ZKEY_PATH.to_string(), &tampered),
        Ok(WitnessKind::Multiplier2)
    );
}

#[test]
fn wrong_shaped_proof_is_a_verification_error() {
    let reg = default_registry();
    let inputs = "{\"a\": 2, \"b\": 3}".to_string();
    let plan = plan_generate(&reg, &ZKEY_PATH.to_string(), &inputs, ProofLib::Arkworks).unwrap();
    let mut result = finish_generate(plan, ProverOutcome::Proof(some_points())).unwrap();
    result.inputs.push(fp_from_u64(1));
    assert_eq!(
        plan_verify(&reg, &ZKEY_PATH.to_string(), &result),
        Err(MoproError::VerificationError)
    );
}

#[test]
fn external_failures_keep_their_stage() {
    let reg = default_registry();
    let inputs = "{\"a\": 2, \"b\": 3}".to_string();
    let plan = plan_generate(&reg, &ZKEY_PATH.to_string(), &inputs, ProofLib::Arkworks).unwrap();
    assert_eq!(
        finish_generate(plan, ProverOutcome::UnreadableKey),
        Err(MoproError::KeyLoadError)
    );
    let plan = plan_generate(&reg, &ZKEY_PATH.to_string(), &inputs, ProofLib::Arkworks).unwrap();
    assert_eq!(
        finish_generate(plan, ProverOutcome::Failure),
        Err(MoproError::ProvingError)
    );
    assert_eq!(
        finish_verify(VerifierOutcome::UnreadableKey),
        Err(MoproError::KeyLoadError)
    );
    assert_eq!(
        finish_verify(VerifierOutcome::Malformed),
        Err(MoproError::VerificationError)
    );
}
