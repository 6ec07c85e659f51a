[package]
name = "backend"
version = "0.1.0"
edition = "2021"
publish = false

[dependencies]
anyhow = "1"
axum = "0.8"
base64 = "0.22"
dotenvy = "0.15"
email_address = "0.2"
hyper = { version = "1", features = ["full"] }
hyper-util = { version = "0.1", features = ["full"] }
lettre = "0.11"
log = "0.4"
maxminddb = "*"
rand = "0.9"
rcgen = "*"
reqwest = { version = "0.12", features = ["json"] }
rustls = "0.23"
rustls-pemfile = "2"
serde = { version = "1", features = ["derive"] }
serde_json = "1"
sha2 = "0.10"
tokio = { version = "1", features = ["full"] }
tokio-postgres = { version = "0.7", features = ["with-uuid-1", "with-serde_json-1"] }
tokio-rustls = "0.26"
tower = { version = "0.5", features = ["util"] }
uuid = { version = "1", features = ["v4", "serde"] }
