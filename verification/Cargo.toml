[package]
name = "pavilion"
version = "0.1.0"
edition = "2021"
publish = false

[dependencies]
base64 = "=0.22.1"
hmac = "=0.12.1"
sha2 = "=0.10.9"
image = { version = "=0.25.10", default-features = false, features = ["jpeg", "png", "webp"] }
argon2 = { version = "=0.5.3", features = ["std"] }
jsonwebtoken = "=9.3.1"
serde = { version = "=1.0.229", features = ["derive"] }
serde_json = "=1.0.154"
anyhow = "=1.0.104"
thiserror = "=2.0.21"
dotenv = "=0.15.0"
tokio = { version = "=1.54.1", features = ["process", "fs", "io-util", "rt", "macros"] }
chrono = { version = "0.4", default-features = false, features = ["clock", "std"] }
uuid = { version = "1", features = ["v7"] }
