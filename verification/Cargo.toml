[package]
name = "cohere_rust"
version = "0.1.0"
edition = "2021"
publish = false

[dependencies]
reqwest = { version = "0.11", default-features = false, features = ["json", "rustls-tls"] }
serde = { version = "1", features = ["derive"] }
serde_json = "1"
strum_macros = "0.26"
thiserror = "1"
tokio = { version = "1", features = ["rt-multi-thread", "sync"] }
