[package]
name = "lan-mouse-server"
version = "0.1.0"
edition = "2021"
publish = false

[dependencies]
futures = "0.3"
hickory-resolver = "0.24"
local-channel = "0.1"
log = "0.4"
thiserror = "2.0"
tokio = { version = "1", features = ["macros", "rt", "signal", "sync"] }
tokio-util = "0.7"
