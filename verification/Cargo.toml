[package]
name = "makcu_bridge"
version = "0.1.0"
edition = "2021"
publish = false

[dependencies]
anyhow = "=1.0.104"
axum = { version = "=0.8.9", features = ["ws"] }
axum-server = { version = "=0.8.0", features = ["tls-rustls"] }
chacha20poly1305 = "=0.10.1"
futures-util = "=0.3.34"
rand = "=0.9.5"
rmp-serde = "=1.3.1"
serde = { version = "=1.0.229", features = ["derive"] }
serialport = { version = "=4.10.1", default-features = false }
thiserror = "=2.0.21"
tokio = { version = "=1.53.2", features = ["full"] }
tracing = "=0.1.44"
tracing-subscriber = { version = "=0.3.23", features = ["env-filter"] }

[dev-dependencies]
bincode = "=2.0.1"
