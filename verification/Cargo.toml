[package]
name = "richamster_api"
version = "0.1.0"
edition = "2021"
publish = false

[dependencies]
chrono = { version = "*", features = ["serde"] }
enum-iterator = "*"
hex = "*"
hmac-sha256 = "*"
percent-encoding = "*"
reqwest = { version = "*", features = ["json"] }
secrecy = "*"
serde = { version = "*", features = ["derive"] }
serde_json = "*"
thiserror = "*"
tokio = { version = "*", features = ["macros", "rt-multi-thread"] }
tracing = "*"
tracing-log = "*"
tracing-subscriber = { version = "*", features = ["env-filter", "json"] }
url = { version = "*", features = ["serde"] }
