[package]
name = "rslean"
version = "0.1.0"
edition = "2021"
publish = false

[dependencies]
num-bigint = "=0.4.8"
serde = { version = "=1.0.229", features = ["derive"] }
thiserror = "=1.0.69"
anyhow = "=1.0.104"
rustc-hash = "2"
