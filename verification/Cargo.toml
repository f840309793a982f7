[package]
name = "indicatif"
version = "0.1.0"
edition = "2021"
publish = false

[dependencies]
console = "*"
tokio = { version = "*", default-features = false }
