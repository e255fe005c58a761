[package]
name = "montana"
version = "0.1.0"
edition = "2021"
publish = false

[dependencies]
alloy = { version = "=2.5.0", default-features = false, features = ["std", "providers", "consensus", "eips", "network", "rpc-types", "kzg"] }
flate2 = "=1.1.10"
tokio = { version = "=1.54.1", features = ["rt-multi-thread", "macros", "time", "sync"] }
async-trait = "=0.1.92"
serde = { version = "=1.0.229", features = ["derive"] }
serde_json = "=1.0.154"
thiserror = "=2.0.21"
tracing = "=0.1.44"
eyre = "=0.6.14"
