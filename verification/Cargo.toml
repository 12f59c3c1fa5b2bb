[package]
name = "dex1"
version = "0.1.0"
edition = "2021"
publish = false

[dependencies]
blake2b-ref = "*"
ethnum = "*"
ckb-std = "*"
ckb-gen-types = "*"
molecule = "*"
