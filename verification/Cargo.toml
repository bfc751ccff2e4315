[package]
name = "simetry"
version = "0.1.0"
edition = "2021"
publish = false

[dependencies]
anyhow = "*"
libc = "*"
tokio = { version = "*", features = ["time", "rt"] }
