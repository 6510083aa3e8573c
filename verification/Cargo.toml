[package]
name = "contracts_runtime"
version = "0.1.0"
edition = "2021"
publish = false

[dependencies]
parity-scale-codec = { version = "*", features = ["derive"] }
sp-core = "*"
sp-io = "*"
sp-runtime = "*"
polkadot-parachain-primitives = "*"
