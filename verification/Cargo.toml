[package]
name = "wikdict"
version = "0.1.0"
edition = "2021"
publish = false

[dependencies]
rusqlite = { version = "*", features = ["bundled"] }
reqwest = { version = "*", default-features = false, features = ["rustls-tls", "stream"] }
tokio = { version = "*", features = ["fs", "io-util"] }
futures-util = "*"
serde = { version = "*", features = ["derive"] }
thiserror = "*"
