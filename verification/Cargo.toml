[package]
name = "vercel-cache-helper"
version = "0.1.0"
edition = "2021"
publish = false

[dependencies]
sha2 = "0.10"
clap = { version = "4", features = ["derive"] }
dirs = "5"
indicatif = "0.17"
reqwest = { version = "0.12", default-features = false, features = ["rustls-tls"] }
tar = "0.4"
tempfile = "3"
tokio = { version = "1", features = ["macros", "rt-multi-thread"] }
walkdir = "2"
zstd = "0.13"
