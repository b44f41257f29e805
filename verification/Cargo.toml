[package]
name = "blob"
version = "0.1.0"
edition = "2021"
publish = false

[dependencies]
git2 = { version = "*", default-features = false }
sha2 = "0.10"
infer = "*"
anyhow = "1"
tokio = { version = "1", features = ["rt-multi-thread", "macros", "fs", "time"] }
clap = { version = "4", features = ["derive"] }
dotenv = "0.15"
reqwest = { version = "0.11", default-features = false, features = ["json", "rustls-tls"] }
serde = { version = "1", features = ["derive"] }
serde_json = "1"
chrono = { version = "0.4", features = ["serde"] }
