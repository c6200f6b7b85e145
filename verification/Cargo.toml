[package]
name = "cache_server"
version = "0.1.0"
edition = "2021"
publish = false

[dependencies]
actix-web = "4"
anyhow = "1"
bytes = "1"
config = { version = "=0.13.4", default-features = false, features = ["toml", "preserve_order"] }
env_logger = "=0.10.2"
futures = "0.3"
futures-core = "0.3"
http = "=0.2.12"
log = "0.4"
prost = "=0.11.9"
serde = { version = "1", features = ["derive"] }
tokio = { version = "1", features = ["macros", "rt-multi-thread", "signal", "sync"] }
tokio-stream = "0.1"
tonic = "=0.8.3"
