[package]
name = "postvault"
version = "0.1.0"
edition = "2021"
publish = false

[dependencies]
anyhow = "*"
futures-util = "*"
indicatif = "*"
regex = "*"
reqwest = { version = "*", default-features = false, features = ["json", "stream"] }
serde = { version = "*", features = ["derive"] }
sha256 = "*"
tokio = { version = "*", features = ["fs", "io-util", "macros", "rt-multi-thread", "sync", "time"] }
