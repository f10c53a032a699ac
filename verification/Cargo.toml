[package]
name = "remote_closedown"
version = "0.1.0"
edition = "2021"
publish = false

[dependencies]
anyhow = "=1.0.104"
clap = { version = "=4.6.7", features = ["derive", "env"] }
kagiyama = "=0.3.0"
lazy_static = "=1.5.1"
log = "=0.4.34"
matrix-sdk = "=0.6.2"
mqtt-channel-client = "=0.6.0"
tokio = { version = "=1.53.2", features = ["macros", "rt-multi-thread", "signal", "sync", "time"] }
tracing-subscriber = "=0.3.23"

[dev-dependencies]
serde_json = "=1.0.151"
