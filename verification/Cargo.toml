[package]
name = "resumable_pairing"
version = "0.1.0"
edition = "2021"
publish = false

[dependencies]
ark-bn254 = "=0.3.0"
ark-ff = "=0.3.0"
ark-ec = "=0.3.0"
