[package]
name = "uring-mqtt"
version = "0.1.0"
edition = "2021"
publish = false

[dependencies]
bytes = "1"
ctrlc = "*"
local-sync = "*"
monoio = "0.2"
monoio-codec = "*"
parking_lot = "0.12"
rmqtt-codec = "*"
thiserror = "2"
tokio-util = { version = "0.7", features = ["codec"] }
tracing = "0.1"
tracing-subscriber = { version = "0.3", features = ["env-filter"] }
