[package]
name = "newsletter"
version = "0.1.0"
edition = "2021"
publish = false

[dependencies]
rand = "=0.8.8"
uuid = { version = "=1.27.0", features = ["v4"] }
chrono = { version = "=0.4.45", default-features = false, features = ["clock"] }
serde = { version = "=1.0.229", features = ["derive"] }
tera = "=1.20.1"
anyhow = "=1.0.104"
secrecy = { version = "=0.8.0", features = ["serde"] }
thiserror = "=1.0.69"
