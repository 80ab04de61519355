[package]
name = "unwrap_or_ai"
version = "0.1.0"
edition = "2021"
publish = false

[dependencies]
serde_json = "=1.0.154"
serde = { version = "=1.0.229", features = ["derive"] }
schemars = "=1.2.3"
reqwest = { version = "=0.12.28", features = ["json"] }
paste = "=1.0.15"
syn = { version = "=2.0.119", features = ["full"] }
quote = "=1.0.47"
proc-macro2 = "=1.0.107"
