[package]
name = "scoopit_api"
version = "0.1.0"
edition = "2021"
publish = false

[dependencies]
jsonwebtokens = "*"
serde_json = "*"
serde = { version = "*", features = ["derive"] }
reqwest = { version = "*", default-features = false, features = ["rustls-tls"] }
tokio = { version = "*", default-features = false, features = ["rt", "time"] }
url = "*"
log = "*"
anyhow = "*"
thiserror = "*"

[dev-dependencies]
base64 = "*"
