[package]
name = "mopro_core"
version = "0.1.0"
edition = "2021"
publish = false

[dependencies]
circom-prover = "=0.1.4"
num-bigint = "=0.4.8"
