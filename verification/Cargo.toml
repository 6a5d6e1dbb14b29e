[package]
name = "hest"
version = "0.1.0"
edition = "2021"
publish = false

[dependencies]
chrono = { version = "=0.4.45", features = ["serde"] }
rand = "=0.10.3"
serde = { version = "=1.0.229", features = ["derive"] }
serde_json = "=1.0.154"
toml = "=1.1.8"
directories = "=6.0.0"
log = "=0.4.35"
env_logger = "=0.11.11"
tokio = { version = "=1.54.1", features = ["macros", "rt-multi-thread", "signal", "time"] }
xmpp = "=0.7.0"
rustls = "=0.23.46"
