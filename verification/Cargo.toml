[package]
name = "cell_core"
version = "0.1.0"
edition = "2021"
publish = false

[dependencies]
blake2b_simd = "=1.0.5"
ed25519-dalek = "=3.0.0"
intervallum = "*"
gcollections = "=1.6.0"
petgraph = "=0.8.3"
serde = { version = "=1.0.229", features = ["derive"] }
rand = "=0.10.3"
