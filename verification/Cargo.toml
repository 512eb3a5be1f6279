[package]
name = "punytunes"
version = "0.1.0"
edition = "2021"
publish = false

[dependencies]
async-trait = "=0.1.92"
bytes = "=1.12.1"
futures = "=0.3.34"
futures-util = "=0.3.34"
log = "=0.4.34"
pin-utils = "=0.1.1"
regex = "=1.13.1"
rupnp = { version = "=2.0.0", features = ["full_device_spec"] }
serde = { version = "=1.0.229", features = ["derive"] }
serde_json = "=1.0.154"
thiserror = "=1.0.69"
tokio = { version = "=1.54.1", features = ["rt-multi-thread", "macros", "net", "time", "sync", "io-util"] }
tokio-tungstenite = "=0.21.0"
tungstenite = "=0.21.0"
url = "=2.5.8"
