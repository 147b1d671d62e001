[package]
name = "moetran_native"
version = "0.1.0"
edition = "2021"
publish = false

[dependencies]
base64 = "0.22"
dotenvy = "0.15"
reqwest = { version = "0.12", default-features = false, features = ["json", "multipart", "rustls-tls"] }
serde = { version = "1", features = ["derive"] }
serde_json = "1"
sqlx = { version = "0.8", default-features = false, features = ["sqlite", "runtime-tokio"] }
time = { version = "0.3", features = ["serde"] }
tokio = { version = "1", features = ["fs", "io-util", "sync", "time", "rt", "macros"] }
tracing = "0.1"
tracing-subscriber = { version = "0.3", features = ["env-filter"] }
url = "2"
