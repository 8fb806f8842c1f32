[package]
name = "plume_auth"
version = "0.1.0"
edition = "2021"
publish = false

[dependencies]
aes = "=0.8.4"
cbc = { version = "=0.1.2", features = ["alloc"] }
hmac = "=0.12.1"
sha2 = "=0.10.9"
plist = "=1.10.3"
srp = "=0.6.0"
anyhow = "=1.0.104"
clap = { version = "=4.6.7", features = ["derive"] }
log = "=0.4.34"
tokio = { version = "=1.54.1", features = ["rt-multi-thread", "macros"] }
reqwest = { version = "=0.12.28", default-features = false, features = ["rustls-tls"] }
env_logger = "=0.11.11"
chrono = "=0.4.45"
dialoguer = "=0.11.0"
zip = { version = "=2.6.1", default-features = false, features = ["deflate"] }
rand = "=0.8.8"
serde_json = "=1.0.154"
uuid = { version = "=1.29.0", features = ["v4"] }
idevice = { version = "=0.1.68", features = ["afc", "usbmuxd", "tcp", "pair"] }
