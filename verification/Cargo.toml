[package]
name = "mngdx"
version = "0.1.0"
edition = "2021"
publish = false

[dependencies]
anyhow = "1"
base64 = "0.13"
chrono = "0.4"
crossterm = "0.22"
enquote = "1"
image = { version = "0.24", default-features = false, features = ["png", "jpeg"] }
libc = "0.2"
log = "0.4"
parking_lot = "0.12"
pretty_env_logger = "0.4"
rand = "0.8"
reqwest = { version = "0.11", default-features = false, features = ["json"] }
serde = { version = "1", features = ["derive"] }
serde_json = "1"
tokio = { version = "1", features = ["rt-multi-thread", "time"] }
tui = { version = "0.17", default-features = false, features = ["crossterm"] }
uuid = { version = "1", features = ["v4", "serde"] }
