[package]
name = "firebase_db"
version = "0.1.0"
edition = "2021"
publish = false

[dependencies]
gcp_auth = "0.7"
reqwest = { version = "0.11", default-features = false, features = ["json", "rustls-tls"] }
serde = "1"
serde_json = "1"
tokio = { version = "1", features = ["macros", "rt-multi-thread"] }

[dev-dependencies]
http = "0.2"
