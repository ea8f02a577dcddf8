[package]
name = "serviceless"
version = "0.1.0"
edition = "2021"
publish = false

[dependencies]
async-trait = "*"
futures-core = "*"
futures-sink = "*"
futures-util = "*"
getset = "*"
http = "0.2"
hyper = { version = "0.14", features = ["client", "http1", "tcp"] }
jsonwebtoken = "*"
log = "*"
serde = { version = "*", features = ["derive"] }
serde_json = "*"
thiserror = "*"
time = "*"
tokio = { version = "1", features = ["sync", "rt", "rt-multi-thread", "macros"] }
tokio-scoped = "*"
