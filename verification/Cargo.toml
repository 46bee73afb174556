[package]
name = "robotrs"
version = "0.1.0"
edition = "2021"
publish = false

[dependencies]
anyhow = "=1.0.104"
serde = { version = "=1.0.229", features = ["derive"] }
serde_json = "=1.0.154"
thiserror = "=1.0.69"
slab = "=0.4.12"
parking_lot = "=0.12.5"
rmp = "=0.8.15"
nalgebra = "=0.32.6"
flume = "*"
futures = "*"
oneshot = "*"
tokio = { version = "1", features = ["rt", "macros", "time"] }
tokio-tungstenite = "*"
