[package]
name = "askollama"
version = "0.1.0"
edition = "2021"
publish = false

[dependencies]
which = "*"
dirs = "*"
notify = "*"
tokio = { version = "*", default-features = false, features = ["rt-multi-thread", "time", "process", "sync"] }
reqwest = { version = "*", default-features = false }
serde = { version = "*", features = ["derive"] }
serde_json = "*"
