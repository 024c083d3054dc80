[package]
name = "notification_core"
version = "0.1.0"
edition = "2021"
publish = false

[dependencies]
log = "0.4"
reqwest = { version = "*", default-features = false }
rocket = { version = "0.5", features = ["json"] }
tokio = { version = "1", features = ["macros", "rt-multi-thread"] }
