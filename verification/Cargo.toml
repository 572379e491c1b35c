[package]
name = "zeroclaw"
version = "0.1.0"
edition = "2021"
publish = false

[dependencies]
anyhow = "1"
axum = "*"
directories = "*"
mime_guess = "2"
rust-embed = "8"
tokio = { version = "1", features = ["process"] }
