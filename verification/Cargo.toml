[package]
name = "zmq_uart_pdp"
version = "0.1.0"
edition = "2021"
publish = false

[dependencies]
anyhow = "*"
env_logger = "*"
log = "*"
parking_lot = "*"
reqwest = { version = "*", default-features = false, features = ["json", "rustls-tls"] }
serde = { version = "*", features = ["derive"] }
serde_json = "*"
serialport = { version = "*", default-features = false }
tokio = { version = "*", features = ["macros", "rt-multi-thread", "sync", "time"] }
zeromq = "*"
