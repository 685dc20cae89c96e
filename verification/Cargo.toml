[package]
name = "saab_audio"
version = "0.1.0"
edition = "2021"
publish = false

[dependencies]
byteorder = "1.5"
serde = { version = "1", features = ["derive"] }
serde_json = "1"
thiserror = "1"
anyhow = "1"
dirs = "5"
ringbuf = "0.4"
tokio = { version = "1", features = ["full"] }
tokio-tungstenite = "0.24"
futures-util = "0.3"
tracing = "0.1"
tracing-subscriber = "0.3"
dialoguer = "0.11"
cpal = "0.15"
reqwest = { version = "0.12", default-features = false, features = ["blocking", "rustls-tls"] }
