[package]
name = "marginfi_cli"
version = "0.1.0"
edition = "2021"
publish = false

[dependencies]
anyhow = "1"
bs58 = "0.5"
clap = { version = "3", features = ["derive"] }
fixed = "1"
