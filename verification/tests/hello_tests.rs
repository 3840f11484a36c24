//! Liveness probes of the binding surface.

#[test]
fn test_mopro_hello_world() {
    assert_eq!(mopro_core::mopro_hello_world(), "Hello, World!");
}

#[test]
fn test_mopro_wasm_hello_world() {
    assert_eq!(mopro_core::mopro_wasm_hello_world(), "Hello, World!");
}
