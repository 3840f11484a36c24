//! The circuit-input grammar, exercised directly.

use mopro_core::{parse_inputs, Signal, WitnessError};

fn names(sigs: &[Signal]) -> Vec<String> {
    sigs.iter().map(|s| s.name.iter().collect()).collect()
}

fn digits(s: &str) -> Vec<u8> {
    s.bytes().map(|b| b - b'0').collect()
}

#[test]
fn empty_object_parses_to_no_signals() {
    let sigs = parse_inputs("{}").unwrap();
    assert!(sigs.is_empty());
    let sigs = parse_inputs("  { }  ").unwrap();
    assert!(sigs.is_empty());
}

#[test]
fn scalars_quoted_scalars_and_arrays_parse() {
    let sigs = parse_inputs("{\"a\": 2, \"b\": \"30\", \"c\": [1, \"2\", 3], \"d\": []}").unwrap();
    assert_eq!(names(&sigs), vec!["a", "b", "c", "d"]);
    assert_eq!(sigs[0].values, vec![digits("2")]);
    assert_eq!(sigs[1].values, vec![digits("30")]);
    assert_eq!(sigs[2].values, vec![digits("1"), digits("2"), digits("3")]);
    assert_eq!(sigs[3].values, Vec::<Vec<u8>>::new());
}

#[test]
fn values_of_any_length_parse_without_truncation() {
    let big = "123456789012345678901234567890123456789012345678901234567890123456789012345678";
    let input = format!("{{\"a\": {}, \"b\": \"{}\"}}", big, big);
    let sigs = parse_inputs(&input).unwrap();
    assert_eq!(sigs[0].values, vec![digits(big)]);
    assert_eq!(sigs[1].values, vec![digits(big)]);
}

#[test]
fn malformed_objects_are_rejected() {
    for bad in [
        "",
        "   ",
        "{",
        "}",
        "{\"a\" 2}",
        "{\"a\": }",
        "{\"a\": 2,}",
        "{\"a\": [2,]}",
        "{\"a\": \"\"}",
        "{\"a\": \"2x\"}",
        "{\"a\": 2} {",
        "[1, 2]",
        "{\"a\\n\": 2}",
    ] {
        assert_eq!(
            parse_inputs(bad),
            Err(WitnessError::InvalidInput),
            "input {:?} should be rejected",
            bad
        );
    }
}

#[test]
fn duplicate_names_keep_the_first_occurrence_for_dispatch() {
    // The grammar itself admits duplicates; the witness adapter reads
    // the first occurrence.
    let sigs = parse_inputs("{\"a\": 1, \"a\": 2}").unwrap();
    assert_eq!(names(&sigs), vec!["a", "a"]);
    assert_eq!(sigs[0].values, vec![digits("1")]);
    assert_eq!(sigs[1].values, vec![digits("2")]);
}

#[test]
fn rendering_normalizes_to_the_array_of_strings_form() {
    let sigs = parse_inputs("{\"a\": 2, \"b\": [1, \"30\"], \"c\": []}").unwrap();
    let rendered: String = mopro_core::render_inputs(&sigs).iter().collect();
    assert_eq!(rendered, "{\"a\":[\"2\"],\"b\":[\"1\",\"30\"],\"c\":[]}");
}
