[package]
name = "dave_gateway"
version = "0.1.0"
edition = "2021"
publish = false

[dependencies]
bytes = "=1.12.1"
davey = "=0.1.5"
discortp = { version = "=0.6.0", features = ["demux", "discord"] }
flume = "0.11"
futures = "0.3"
rand = "=0.9.5"
serde = { version = "1", features = ["derive"] }
serde_json = "=1.0.154"
serenity-voice-model = "=0.3.0"
tokio = { version = "1", features = ["macros", "net", "rt", "sync", "time"] }
tokio-tungstenite = { version = "=0.30.0", features = ["url"] }
tokio-websockets = { version = "0.13", features = ["client", "fastrand", "sha1_smol"] }
tracing = "0.1"
url = "2"

[dev-dependencies]
openmls = "=0.8.3"
openmls_basic_credential = "=0.5.0"
openmls_rust_crypto = "=0.5.1"
