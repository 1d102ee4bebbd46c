[package]
name = "whisper_typeless"
version = "0.1.0"
edition = "2021"
publish = false

[dependencies]
ferrous-opencc = "0.4"
sha1 = "0.10"
serde = { version = "1", features = ["derive"] }
serde_json = "1"
toml = "0.8"
anyhow = "1"
tokio = { version = "1", features = ["rt-multi-thread", "macros", "sync", "fs", "io-util", "time"] }
futures = "0.3"
rubato = "0.15"
symphonia = "0.5"
dirs = "5"
tracing = "0.1"
tracing-subscriber = { version = "0.3", features = ["env-filter"] }
