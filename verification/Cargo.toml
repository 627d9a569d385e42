[package]
name = "mongoui"
version = "0.1.0"
edition = "2021"
publish = false

[dependencies]
boa_engine = "=0.18.0"
boa_gc = "=0.18.0"
# Held back for boa_engine, which needs it and does not compile with 0.9.7.
intrusive-collections = "=0.9.6"
lazy_static = "=1.5.1"
mongodb = { version = "=2.8.2", features = ["tokio-sync"] }
rusqlite = { version = "=0.40.2", features = ["bundled"] }
serde = { version = "=1.0.229", features = ["derive"] }
serde_json = "=1.0.154"
thiserror = "=1.0.69"
uuid = { version = "=1.29.0", features = ["v4"] }
