[package]
name = "doco"
version = "0.1.0"
edition = "2021"
publish = false

[dependencies]
anyhow = "1"
fantoccini = "*"
reqwest = { version = "0.12", default-features = false }
testcontainers = "*"
tokio = { version = "1", features = ["rt", "time"] }
url = "2"
