[package]
name = "replicat"
version = "0.1.0"
edition = "2021"
publish = false

[dependencies]
anyhow = "1"
async-trait = "0.1"
flume = "0.10"
futures = "0.3"
http = "0.2"
humansize = "2"
openraft = { version = "0.8", features = ["serde"] }
parking_lot = "0.12"
prost = "0.11"
rmp-serde = "1"
rusqlite = { version = "0.28", features = ["bundled"] }
serde = { version = "1", features = ["derive"] }
thiserror = "1"
tokio = { version = "1", features = ["full"] }
tonic = "0.8"
tracing = "0.1"
uuid = { version = "1", features = ["v4"] }
