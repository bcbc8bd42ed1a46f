[package]
name = "bili_player"
version = "0.1.0"
edition = "2021"
publish = false

[dependencies]
serde_json = "*"
rand = "*"
anyhow = "*"
tokio = { version = "*", features = ["macros", "rt-multi-thread", "sync", "time", "io-std", "io-util"] }
reqwest = { version = "*", default-features = false, features = ["rustls-tls", "json"] }
