[package]
name = "kv_coordinator"
version = "0.1.0"
edition = "2021"
publish = false

[dependencies]
futures = "0.3"
serde = { version = "1", features = ["derive"] }
serde_json = "1"
valence_core = "*"
warp = "0.3"
weaver-core = "*"
