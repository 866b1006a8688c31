[package]
name = "kafka2i"
version = "0.1.0"
edition = "2021"
publish = false

[dependencies]
serde_json = "=1.0.151"
chrono = "=0.4.45"
clap = { version = "4", features = ["derive"] }
crossterm = "=0.29.0"
ratatui = "=0.30.2"
crossbeam = "0.8"
parking_lot = "0.12"
rdkafka = "=0.39.0"
tokio = { version = "1", features = ["rt-multi-thread", "macros", "time", "sync"] }
futures = "0.3"
log = "0.4"
flexi_logger = "=0.31.10"
reqwest = { version = "*", default-features = false, features = ["blocking", "json", "form"] }
serde = { version = "1", features = ["derive"] }
