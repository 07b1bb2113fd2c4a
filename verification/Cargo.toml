[package]
name = "sayso"
version = "0.1.0"
edition = "2021"
publish = false

[dependencies]
hound = "=3.5.1"
anyhow = "1"
arboard = "3"
dirs = "6"
dotenvy = "0.15"
rdev = "0.5"
reqwest = { version = "0.12", default-features = false, features = ["json", "multipart", "rustls-tls"] }
serde = { version = "1", features = ["derive"] }
tokio = { version = "1", features = ["rt", "rt-multi-thread", "macros", "sync", "time"] }
toml = "0.9"
tracing = "0.1"
tracing-subscriber = { version = "0.3", features = ["env-filter"] }
