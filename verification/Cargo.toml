[package]
name = "umamurl"
version = "0.1.0"
edition = "2021"
publish = false

[dependencies]
argon2 = "=0.5.3"
actix-web = "=4.18.1"
actix-session = "=0.11.0"
actix-files = "=0.6.10"
serde = { version = "=1.0.229", features = ["derive"] }
serde_json = "=1.0.154"
reqwest = { version = "=0.12.28", default-features = false, features = ["json", "rustls-tls"] }
tokio = { version = "=1.54.1", features = ["rt"] }
log = "=0.4.35"
rusqlite = { version = "=0.41.1", features = ["bundled"] }
