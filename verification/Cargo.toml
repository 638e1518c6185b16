[package]
name = "migration_scheduler"
version = "0.1.0"
edition = "2021"
publish = false

[dependencies]
parking_lot = "0.12"
rusqlite = "0.29"
tokio = { version = "1", features = ["macros", "rt", "sync"] }
tracing = "0.1"
