[package]
name = "forkt-lighthouse"
version = "0.1.0"
edition = "2021"
publish = false

[dependencies]
anyhow = "*"
async-channel = "*"
chrono = { version = "*", features = ["serde"] }
dotenvy = "*"
futures = "*"
reqwest = { version = "0.12", default-features = false, features = ["json", "rustls-tls"] }
serde = { version = "1", features = ["derive"] }
serde_json = "1"
tokio = { version = "1", features = ["macros", "net", "rt-multi-thread", "signal", "sync", "time"] }
tracing = "*"
tracing-subscriber = { version = "*", features = ["env-filter", "json"] }
url = "2"

[dev-dependencies]
alloy-primitives = "1"
