[package]
name = "compact_enc_det"
version = "0.1.0"
edition = "2021"
publish = false

[dev-dependencies]
encoding_rs = "*"
