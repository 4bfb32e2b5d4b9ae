[package]
name = "cketh_bridge"
version = "0.1.0"
edition = "2021"
publish = false

[dependencies]
b3_utils = { version = "=0.13.1", features = ["ledger"] }
candid = "=0.10.10"
evm-rpc-canister-types = "=1.0.0"
ic-cdk = "=0.16.1"
icrc-ledger-types = "*"
lazy_static = "=1.5.1"
serde = { version = "=1.0.229", features = ["derive"] }
serde_json = "=1.0.154"
