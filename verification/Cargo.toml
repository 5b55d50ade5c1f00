[package]
name = "kafka_pump"
version = "0.1.0"
edition = "2021"
publish = false

[dependencies]
async-trait = "*"
clap = { version = "*", features = ["derive"] }
rdkafka = "*"
serde = { version = "*", features = ["derive"] }
serde_json = "*"
serde_yaml = "*"
tokio = { version = "*", features = ["full"] }
tracing = "*"
tracing-subscriber = { version = "*", features = ["env-filter"] }
