[package]
name = "example_service"
version = "0.1.0"
edition = "2021"
publish = false

[dependencies]
uuid = { version = "1", features = ["v4"] }
anyhow = "1"
tonic = "0.11"
tokio = { version = "1", features = ["rt-multi-thread", "macros", "net", "sync"] }
tokio-stream = { version = "0.1", features = ["net"] }
tracing = "0.1"
sea-orm = { version = "0.12", default-features = false, features = ["macros", "with-uuid", "sqlx-sqlite", "runtime-tokio-rustls"] }
