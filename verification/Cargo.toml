[package]
name = "account_cli"
version = "0.1.0"
edition = "2021"
publish = false

[dependencies]
anyhow = "*"
clap = { version = "*", features = ["derive"] }
iota-wallet = { version = "*", default-features = false }
