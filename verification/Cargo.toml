[package]
name = "launcher_core"
version = "0.1.0"
edition = "2021"
publish = false

[dependencies]
urlencoding = "2"
chrono = "0.4"
tokio = { version = "1", features = ["rt", "time", "macros"] }
uuid = "1"
serde = { version = "1", features = ["derive"] }
serde_json = "1"
lexical-sort = "0.3"
