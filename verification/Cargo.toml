[package]
name = "aleo_new"
version = "0.1.0"
edition = "2021"
publish = false

[dependencies]
snarkvm = "*"
anyhow = "*"
clap = { version = "*", features = ["derive"] }
colored = "*"
