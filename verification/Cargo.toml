[package]
name = "wamp_proto"
version = "0.1.0"
edition = "2021"
publish = false

[dependencies]
async-trait = "0.1"
failure = "0.1"
futures = "0.3"
lazy_static = "1"
log = "0.4"
parking_lot = "0.10"
rand = "0.7"
regex = "1"
serde = { version = "1", features = ["derive"] }
serde_json = "1"
tokio = { version = "0.2", features = ["dns", "macros", "rt-threaded", "stream", "sync", "tcp", "time"] }
tokio-tungstenite = "0.10"
