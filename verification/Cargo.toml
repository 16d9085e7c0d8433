[package]
name = "rusoto_logs_writer"
version = "0.1.0"
edition = "2021"
publish = false

[dependencies]
rusoto_core = { version = "0.48", default-features = false, features = ["rustls"] }
rusoto_logs = { version = "0.48", default-features = false, features = ["rustls"] }
tokio = { version = "1", features = ["rt", "sync", "time"] }
parking_lot = "0.12"
tracing-core = "0.1"
tracing-subscriber = "0.3"
