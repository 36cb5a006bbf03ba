[package]
name = "bls_final_exp"
version = "0.1.0"
edition = "2021"
publish = false

[dependencies]
halo2curves = "*"

[dev-dependencies]
num-bigint = "*"
