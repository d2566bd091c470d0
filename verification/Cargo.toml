[package]
name = "novaposhta"
version = "0.1.0"
edition = "2021"
publish = false

[dependencies]
uuid = "1"
serde = { version = "1", features = ["derive"] }
serde_json = "1"
chrono = "0.4"
reqwest = { version = "0.12", default-features = false, features = ["blocking", "json", "rustls-tls"] }
bytes = "1"
