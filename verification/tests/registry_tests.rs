//! Registry construction and dispatch over caller-built registries.

use mopro_core::field::fp_from_u64;
use mopro_core::{
    plan_generate, plan_verify, CircuitRegistry, MoproError, ProofLib, ProverOutcome,
    RegistryError, WitnessKind,
};

#[test]
fn duplicate_registration_is_rejected_and_leaves_the_table_usable() {
    let mut reg = CircuitRegistry::new();
    assert!(reg
        .register("multiplier2_final.zkey".to_string(), WitnessKind::Multiplier2)
        .is_ok());
    let again = reg.register("multiplier2_final.zkey".to_string(), WitnessKind::Multiplier2);
    assert_eq!(again, Err(RegistryError::DuplicateCircuit));

    // The earlier registration still answers lookups.
    let path = "multiplier2_final.zkey".to_string();
    let inputs = "{\"a\": 3, \"b\": 4}".to_string();
    let plan = plan_generate(&reg, &path, &inputs, ProofLib::Arkworks).unwrap();
    assert_eq!(plan.public_signals, vec![fp_from_u64(12)]);
}

#[test]
fn unregistered_table_knows_no_circuit() {
    let reg = CircuitRegistry::new();
    let path = "multiplier2_final.zkey".to_string();
    let inputs = "{\"a\": 3, \"b\": 4}".to_string();
    let planned = plan_generate(&reg, &path, &inputs, ProofLib::Arkworks);
    assert!(matches!(planned, Err(MoproError::UnknownCircuit)));
}

#[test]
fn lookup_goes_by_the_final_path_segment() {
    let reg = mopro_core::default_registry();
    let inputs = "{\"a\": 2, \"b\": 3}".to_string();
    for path in [
        "multiplier2_final.zkey",
        "./multiplier2_final.zkey",
        "/deep/nested/dir/multiplier2_final.zkey",
    ] {
        let plan = plan_generate(&reg, &path.to_string(), &inputs, ProofLib::Arkworks).unwrap();
        assert_eq!(plan.public_signals, vec![fp_from_u64(6)]);
    }
}

#[test]
fn file_name_strips_directories() {
    assert_eq!(mopro_core::file_name("./a/b/c_final.zkey"), "c_final.zkey");
    assert_eq!(mopro_core::file_name("c_final.zkey"), "c_final.zkey");
    assert_eq!(mopro_core::file_name("dir/"), "");
    assert_eq!(mopro_core::file_name(""), "");
}

#[test]
fn a_generated_result_is_always_well_shaped_for_verification() {
    let reg = mopro_core::default_registry();
    let path = "multiplier2_final.zkey".to_string();
    let inputs = "{\"a\": 5, \"b\": 8}".to_string();
    let plan = plan_generate(&reg, &path, &inputs, ProofLib::Arkworks).unwrap();
    let points = mopro_core::CircomProof {
        a: mopro_core::G1 { x: fp_from_u64(1), y: fp_from_u64(2) },
        b: mopro_core::G2 {
            x0: fp_from_u64(3),
            x1: fp_from_u64(4),
            y0: fp_from_u64(5),
            y1: fp_from_u64(6),
        },
        c: mopro_core::G1 { x: fp_from_u64(7), y: fp_from_u64(8) },
    };
    let result = mopro_core::finish_generate(plan, ProverOutcome::Proof(points)).unwrap();
    assert_eq!(plan_verify(&reg, &path, &result), Ok(WitnessKind::Multiplier2));
}
