[package]
name = "sqlite_types"
version = "0.1.0"
edition = "2021"
publish = false

[dependencies]
bson = "2"
chrono = { version = "0.4", features = ["serde"] }
proc-macro2 = "1"
quote = "1"
rusqlite = { version = "*", features = ["bundled"] }
serde = { version = "1", features = ["derive"] }
serde_json = "1"
syn = "2"
thiserror = "1"
