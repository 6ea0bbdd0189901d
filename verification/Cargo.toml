[package]
name = "agent_core"
version = "0.1.0"
edition = "2021"
publish = false

[dependencies]
jsonwebtoken = "=9.3.1"
chrono = { version = "=0.4.45", default-features = false, features = ["clock", "std"] }
chrono-tz = "=0.10.4"
serde = { version = "=1.0.229", features = ["derive"] }
serde_json = { version = "=1.0.154", features = ["preserve_order"] }
async-trait = "=0.1.92"
futures-core = "=0.3.34"
reqwest = { version = "=0.12.28", default-features = false, features = ["json"] }
tonic = { version = "=0.12.3", default-features = false }
