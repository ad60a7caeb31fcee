[package]
name = "liberation"
version = "0.1.0"
edition = "2021"
publish = false

[dependencies]
base64 = "=0.23.1"
jsonwebtoken = { version = "=11.1.0", features = ["rust_crypto"] }
openssl = "=0.10.81"
serde_json = "=1.0.151"
serde = { version = "=1.0.229", features = ["derive"] }
actix-web = "=4.15.0"
actix = "=0.13.5"
awc = "=3.8.2"
url = "=2.5.8"
config = "=0.15.27"
env_logger = "=0.11.11"
log = "=0.4.34"
chrono = "=0.4.45"
