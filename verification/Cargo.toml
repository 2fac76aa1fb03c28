[package]
name = "teleser"
version = "0.1.0"
edition = "2021"
publish = false

[dependencies]
anyhow = "=1.0.104"
async-trait = "=0.1.92"
grammers-client = { version = "=0.10.0", features = ["proxy"] }
grammers-session = { version = "=0.10.0", default-features = false, features = ["serde"] }
proc-macro2 = "=1.0.107"
quote = "=1.0.47"
serde = { version = "1", features = ["derive"] }
serde_json = "1"
syn = { version = "=1.0.109", features = ["full"] }
tokio = { version = "=1.54.1", features = ["full"] }
tracing = "=0.1.44"
tracing-subscriber = "=0.3.23"
