[package]
name = "cosmos_client"
version = "0.1.0"
edition = "2021"
publish = false

[dependencies]
azure_data_cosmos = { version = "=0.24.0", features = ["key_auth"] }
azure_core = "=0.25.0"
typespec = "=0.5.0"
serde_json = "=1.0.151"
tokio = { version = "=1.53.2", features = ["rt-multi-thread"] }
futures = "=0.3.34"
once_cell = "=1.21.4"
