[package]
name = "armature-distributed"
version = "0.1.0"
edition = "2021"
publish = false

[dependencies]
async-trait = "0.1"
redis = { version = "*", features = ["aio", "connection-manager", "script", "tokio-comp"] }
thiserror = "*"
tokio = { version = "1", features = ["macros", "rt", "rt-multi-thread", "sync", "time"] }
tracing = "0.1"
uuid = { version = "1", features = ["v4"] }
