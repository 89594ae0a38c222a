[package]
name = "orcascore"
version = "0.1.0"
edition = "2021"
publish = false

[dependencies]
serde_json = "*"
url = "*"
reqwest = { version = "*", default-features = false }
tokio = { version = "*", features = ["rt", "macros", "time"] }
