[package]
name = "birchvault"
version = "0.1.0"
edition = "2021"
publish = false

[dependencies]
aes-gcm = "=0.10.3"
anyhow = "=1.0.104"
base64 = "=0.22.1"
chrono = { version = "=0.4.45", features = ["serde"] }
dirs = "=5.0.1"
env_logger = "=0.11.11"
hostname = "=0.4.2"
image = { version = "0.25", default-features = false, features = ["png"] }
keyring = { version = "=2.3.3", default-features = false }
log = "=0.4.34"
parking_lot = "=0.12.5"
pbkdf2 = "=0.12.2"
rand = "=0.8.8"
regex = "=1.13.1"
reqwest = { version = "=0.12.28", default-features = false, features = ["json", "rustls-tls"] }
rusqlite = { version = "=0.31.0", features = ["bundled"] }
serde = { version = "=1.0.229", features = ["derive"] }
serde_json = "=1.0.154"
sha2 = "=0.10.9"
sysinfo = "=0.30.13"
thiserror = "=1.0.69"
tokio = { version = "=1.54.1", features = ["full"] }
uuid = { version = "=1.29.0", features = ["v4"] }
