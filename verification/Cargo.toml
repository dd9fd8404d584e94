[package]
name = "where_zome"
version = "0.1.0"
edition = "2021"
publish = false

[dependencies]
holo_hash = { version = "=0.5.6", features = ["encoding"] }
hdk = "=0.5.6"
hdi = "=0.6.6"
hc_utils = "=0.5.3"
holochain_serialized_bytes = "=0.0.56"
serde = { version = "1", features = ["derive"] }
