[package]
name = "tiny_multihash"
version = "0.1.0"
edition = "2021"
publish = false

[dependencies]
sha2 = "*"
sha3 = "*"
strobe-rs = "*"
unsigned-varint = "*"
serde = "*"
parity-scale-codec = "*"
