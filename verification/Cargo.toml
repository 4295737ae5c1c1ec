[package]
name = "homomorphic_enc"
version = "0.1.0"
edition = "2021"
publish = false

[dependencies]
cxx = "1"
openfhe = "*"
prost = "*"
tokio = { version = "1", features = ["macros", "rt-multi-thread"] }
tonic = "*"
