[package]
name = "raw_mqtt"
version = "0.1.0"
edition = "2021"
publish = false

[dependencies]
mqttbytes = "0.6"
bytes = "1"
uuid = { version = "1", features = ["v4"] }
tokio = { version = "1", features = ["full"] }
tokio-util = { version = "0.7", features = ["rt"] }
tokio-rustls = { version = "0.26", default-features = false, features = ["logging", "tls12", "ring"] }
quinn = "0.11"
rustls-native-certs = "0.8"
async-channel = "2"
async-trait = "0.1"
clap = { version = "4", features = ["derive"] }
env_logger = "0.11"
log = "0.4"
chrono = "0.4"
