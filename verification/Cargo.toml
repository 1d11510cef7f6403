[package]
name = "rust_ms"
version = "0.1.0"
edition = "2021"
publish = false

[dependencies]
reqwest = { version = "=0.9.24", default-features = false }
iron = "=0.6.1"
router = "=0.6.0"
bodyparser = "=0.8.0"
persistent = "=0.4.0"
time = "=0.1.45"
serde_json = "=1.0.154"
log = "=0.4.35"
env_logger = "=0.7.1"
redis = { version = "=0.21.8", default-features = false }
rdkafka = "0.25"
futures = "=0.1.31"
