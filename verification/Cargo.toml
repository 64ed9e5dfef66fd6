[package]
name = "forest_filecoin"
version = "0.1.0"
edition = "2021"
publish = false

[dependencies]
fvm_ipld_blockstore = "=0.3.2"
itertools = "=0.13.0"
jsonrpsee = { version = "=0.22.5", features = ["server", "client-core"] }
num-bigint = "=0.4.8"
num-traits = "=0.2.19"
rlp = "=0.6.1"
schemars = "=0.8.22"
serde = { version = "=1.0.229", features = ["derive"] }
serde_json = "=1.0.154"
