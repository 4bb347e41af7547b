[package]
name = "skinvolt"
version = "0.1.0"
edition = "2021"
publish = false

[dependencies]
serde_json = "1"
urlencoding = "2"
serde = { version = "1", features = ["derive"] }
thiserror = "1"
chrono = { version = "0.4", default-features = false, features = ["clock"] }
tokio = { version = "1", features = ["rt-multi-thread", "macros", "time"] }
rusqlite = { version = "0.31", features = ["bundled"] }
directories = "5"
once_cell = "1"
reqwest = { version = "0.12", default-features = false, features = ["rustls-tls"] }
