[package]
name = "dsx-exchange-consumer"
version = "0.1.0"
edition = "2021"
publish = false

[dependencies]
chrono = { version = "0.4", features = ["serde"] }
serde = { version = "1", features = ["derive"] }
serde_json = "1"
tokio = { version = "1", features = ["rt-multi-thread", "macros", "sync", "time"] }
tracing = "0.1"
tracing-subscriber = { version = "0.3", features = ["env-filter"] }
thiserror = "*"
async-trait = "0.1"
url = { version = "2", features = ["serde"] }
figment = { version = "0.10", features = ["toml", "env"] }
humantime-serde = "1"
opentelemetry = "*"
tonic = { version = "*", default-features = false }
moka = { version = "0.12", features = ["future", "sync"] }
rumqttc = { version = "*", default-features = false }
