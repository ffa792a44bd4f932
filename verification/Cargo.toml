[package]
name = "rustybot"
version = "0.1.0"
edition = "2021"
publish = false

[dependencies]
sha2 = "*"
base16ct = { version = "*", features = ["alloc"] }
uuid = { version = "*", features = ["v4"] }
serde = { version = "*", features = ["derive"] }
serde_yaml = "*"
redis = "*"
paho-mqtt = "*"
rust-ai = "*"
tokio = { version = "*", features = ["rt-multi-thread", "macros", "time"] }
log = "*"

[dev-dependencies]
serde_json = "*"
