[package]
name = "memcache_session_store"
version = "0.1.0"
edition = "2021"
publish = false

[dependencies]
async-trait = "0.1"
futures = "0.3"
memcache-async = "*"
rmp-serde = "1"
serde_json = "1"
time = "0.3"
tokio = { version = "1", features = ["sync"] }
tower-sessions-core = "*"
