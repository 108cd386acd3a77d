[package]
name = "booru_rs"
version = "0.3.0"
edition = "2021"
publish = false

[dependencies]
futures-core = "0.3"
reqwest = { version = "0.12", default-features = false, features = ["json", "stream"] }
serde = { version = "1", features = ["derive"] }
serde_json = "1"
thiserror = "2"
tokio = { version = "1", default-features = false, features = ["fs", "io-util", "rt", "sync", "time"] }
