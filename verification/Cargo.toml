[package]
name = "blue_horizon"
version = "0.1.0"
edition = "2021"
publish = false

[dependencies]
atrium-common = "0.1"
atrium-xrpc = "0.12"
atrium-xrpc-client = "0.5"
bsky-sdk = "0.1"
chrono = "0.4"
futures = "0.3"
image = { version = "0.25", default-features = false, features = ["gif", "jpeg", "png", "webp"] }
infer = "0.19"
ipld-core = "0.4"
keyring = { version = "3", features = ["sync-secret-service"] }
reqwest = { version = "0.12", features = ["json"] }
serde = { version = "1", features = ["derive"] }
serde_json = "1"
sqlx = { version = "0.8", default-features = false, features = ["sqlite", "runtime-tokio", "migrate", "macros"] }
thiserror = "2"
tokio = { version = "1", features = ["sync", "time", "fs", "rt-multi-thread", "macros"] }
uuid = { version = "1", features = ["v4"] }
