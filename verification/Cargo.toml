[package]
name = "redis_cache"
version = "0.1.0"
edition = "2021"
publish = false

[dependencies]
anyhow = "=1.0.104"
bytes = { version = "=1.12.1", features = ["serde"] }
lazy_static = "=1.5.1"
log = "=0.4.35"
once_cell = "=1.21.4"
redis = { version = "=0.27.6", features = ["bytes"] }
rmp-serde = "=1.3.1"
serde = { version = "=1.0.229", features = ["derive"] }
serde_json = "=1.0.154"
surrealkv = ">=0.5, <0.8"
tokio = { version = "=1.54.1", features = ["macros", "rt-multi-thread", "signal", "sync", "time"] }
tracing = "=0.1.44"
ustr = "=1.1.0"
