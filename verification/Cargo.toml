[package]
name = "sponge_circuits"
version = "0.1.0"
edition = "2021"
publish = false

[dependencies]
num-bigint = "=0.5.1"
halo2_proofs = "=0.3.5"
halo2curves = "=0.10.0"
ff = "=0.13.1"
