[package]
name = "resolvething"
version = "0.1.0"
edition = "2021"
publish = false

[dependencies]
anyhow = "1"
clap = { version = "4", features = ["derive"] }
dirs = "*"
regex = "1"
serde = { version = "1", features = ["derive"] }
termsize = "*"
toml = "*"
walkdir = "2"
which = "*"
