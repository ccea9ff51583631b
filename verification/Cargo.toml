[package]
name = "entry_validation"
version = "0.1.0"
edition = "2021"
publish = false

[dependencies]
futures = "0.3"
holochain_json_api = "*"
holochain_persistence_api = "=0.0.18"
snowflake = "=1.3.0"
serde = { version = "1", features = ["derive"] }
serde_json = "1"
