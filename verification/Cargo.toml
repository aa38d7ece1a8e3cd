[package]
name = "checksum_backup"
version = "0.1.0"
edition = "2021"
publish = false

[dependencies]
clap = { version = "4", features = ["derive"] }
regex = "1"
sha256 = "1"
walkdir = "2"
