[package]
name = "auth_core"
version = "0.1.0"
edition = "2021"
publish = false

[dependencies]
anyhow = "=1.0.104"
argon2 = { version = "=0.5.3", features = ["std"] }
clap = { version = "=4.6.7", features = ["derive", "env"] }
jsonwebtoken = "=9.3.1"
libc = "=0.2.191"
serde = { version = "=1.0.229", features = ["derive"] }
serde_json = "=1.0.154"
time = { version = "=0.3.55", features = ["serde-well-known"] }
tokio = { version = "=1.54.1", features = ["fs", "macros", "rt-multi-thread", "signal", "sync"] }
toml = "=0.8.23"
tracing = "=0.1.44"
tracing-subscriber = "=0.3.23"
urlencoding = "2"
uuid = { version = "=1.29.0", features = ["v4"] }
