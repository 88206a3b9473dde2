[package]
name = "moq_transport_quiche"
version = "0.1.0"
edition = "2021"
publish = false

[dependencies]
anyhow = "=1.0.104"
bytes = "=1.12.1"
log = "=0.4.35"
moq-transport = "=0.5.3"
quinn = "=0.10.2"
rustls = "=0.21.12"
tokio = { version = "=1.54.1", features = ["full"] }
