[package]
name = "keybroker"
version = "0.1.0"
edition = "2021"
publish = false

[dependencies]
actix-web = "=4.18.1"
anyhow = "=1.0.104"
base64 = "=0.22.1"
clap = { version = "=4.6.7", features = ["derive"] }
ear = "=0.3.0"
log = "=0.4.34"
phf = { version = "=0.11.3", features = ["macros"] }
rand = "=0.8.8"
regorus = "=0.2.8"
rsa = "=0.9.10"
serde = { version = "=1.0.229", features = ["derive"] }
serde_json = "=1.0.154"
serde_with = "=3.24.0"
sha2 = "=0.10.9"
stderrlog = "=0.6.0"
thiserror = "=1.0.69"

[dev-dependencies]
openssl = "=0.10.81"
