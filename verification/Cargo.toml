[package]
name = "move-cli"
version = "0.1.0"
edition = "2021"
publish = false

[dependencies]
anyhow = "1"
clap = { version = "=3.1.18", features = ["derive"] }
move-core-types = "=0.0.3"
