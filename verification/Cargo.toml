[package]
name = "geyser_filter"
version = "0.1.0"
edition = "2021"
publish = false

[dependencies]
ahash = "=0.8.12"
bs58 = "=0.5.1"
chrono = "=0.4.45"
crossbeam-queue = "=0.3.14"
flume = "=0.12.0"
log = "=0.4.34"
postgres-types = { version = "=0.2.14", features = ["derive"] }
rdkafka = "=0.39.0"
serde = { version = "=1.0.229", features = ["derive"] }
serde_json = "=1.0.151"
tokio = { version = "=1.53.2", features = ["rt-multi-thread", "macros", "time", "fs"] }
tokio-postgres = { version = "=0.7.18", features = ["with-chrono-0_4"] }
