[package]
name = "halo2_aes"
version = "0.1.0"
edition = "2021"

[dependencies]
halo2_proofs = "=0.4.0"
rand = "=0.10.3"
ark-std = "=0.6.0"
