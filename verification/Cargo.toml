[package]
name = "ibc_lite"
version = "0.1.0"
edition = "2021"
publish = false

[dependencies]
sha2 = "=0.10.9"
ibc-core-host = "=0.53.0"
cosmwasm-std = { version = "=2.3.6", features = ["cosmwasm_2_0"] }
cosmwasm-schema = "=2.3.6"
cw-storage-plus = "=2.0.0"
cw2 = "=2.0.0"
cw-ownable = "=2.1.0"
cw20 = "=2.0.0"
serde = { version = "=1.0.229", features = ["derive"] }
schemars = "=0.8.22"
thiserror = "=1.0.69"
ibc-client-cw = "0.57"
ibc-client-tendermint = "0.57"
ibc-core = "0.57"
