[package]
name = "rqsrv"
version = "0.1.0"
edition = "2021"
publish = false

[dependencies]
rsa = { version = "=0.9.10", features = ["hazmat"] }
rand = "=0.8.8"
ringbuf = "=0.4.8"
flate2 = "=1.1.10"
pretty-hex = "=0.4.2"
anyhow = "=1.0.104"
tokio = { version = "=1.54.1", features = ["full"] }
fast-socks5 = "=0.10.0"
clap = { version = "=4.6.7", features = ["derive"] }
serde = { version = "=1.0.229", features = ["derive"] }
toml = "=0.8.23"
tracing = "=0.1.44"
tracing-subscriber = { version = "=0.3.23", features = ["env-filter"] }
chrono = "=0.4.45"
flume = "=0.11.1"
parking_lot = "=0.12.5"
glam = "=0.29.3"
