[package]
name = "paper_index"
version = "0.1.0"
edition = "2021"
publish = false

[dependencies]
quick-xml = "0.37"
serde = { version = "1", features = ["derive"] }
reqwest = { version = "0.12", default-features = false }
tokio = { version = "1", features = ["sync"] }
futures = "0.3"
arrow-array = "*"
arrow-schema = "*"
arrow-ipc = "*"
