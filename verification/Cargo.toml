[package]
name = "moveos_types"
version = "0.1.0"
edition = "2021"
publish = false

[dependencies]
anyhow = "1"
bcs = "0.1"
move-core-types = "=0.0.3"
schemars = "0.8"
serde = { version = "1", features = ["derive"] }
serde_json = "1"
