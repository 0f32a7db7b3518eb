[package]
name = "gitfetch_rs"
version = "0.1.0"
edition = "2021"
publish = false

[dependencies]
unicode-width = "*"
chrono = "*"
anyhow = "*"
async-trait = "*"
clap = { version = "*", features = ["derive"] }
crossterm = "*"
dialoguer = "*"
directories = "*"
git2 = "*"
regex = "*"
reqwest = { version = "*", default-features = false, features = ["json", "rustls-tls"] }
rusqlite = { version = "*", features = ["bundled"] }
serde = { version = "*", features = ["derive"] }
serde_json = "*"
tokio = { version = "*", features = ["rt-multi-thread", "macros"] }
toml = "*"
