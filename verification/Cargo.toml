[package]
name = "test_common"
version = "0.1.0"
edition = "2021"
publish = false

[dependencies]
anyhow = "1"
async-trait = "0.1"
ink_env = "3"
jsonrpsee-types = "*"
log = "0.4"
parity-scale-codec = { version = "3", features = ["derive"] }
portpicker = "0.1"
rand = "0.8"
serde = { version = "1", features = ["derive"] }
subxt = "*"
test-context = "*"
