[package]
name = "ferox_banner"
version = "0.1.0"
edition = "2021"
publish = false

[dependencies]
console = "*"
serde_json = "*"
log = "*"
reqwest = { version = "*", default-features = false, features = ["rustls-tls"] }
tokio = { version = "*", features = ["rt", "macros", "time", "sync"] }
