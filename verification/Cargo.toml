[package]
name = "data_pipe"
version = "0.1.0"
edition = "2021"
publish = false

[dependencies]
tokio = { version = "1", features = ["full"] }
rand = "0.9"
uuid = { version = "1", features = ["v4"] }
xxhash-rust = { version = "0.8", features = ["xxh32"] }
rmp-serde = "1"
serde = { version = "1", features = ["derive"] }
serde_json = "1"
serde_bytes = "0.11"
regex = "1"
log = "0.4"
simplelog = "0.12"
thiserror = "2"
sockudo-ws = "*"
