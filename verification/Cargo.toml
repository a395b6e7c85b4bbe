[package]
name = "orc_view"
version = "0.1.0"
edition = "2021"
publish = false

[dependencies]
arrow = "=59.3.1"
orc-rust = "=0.9.0"
serde = { version = "=1.0.229", features = ["derive"] }
