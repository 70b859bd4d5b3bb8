[package]
name = "mfa_core"
version = "0.1.0"
edition = "2021"
publish = false

[dependencies]
base64 = "0.22"
hmac = "0.12"
qrcode = "*"
rand = "0.8"
redis = { version = "*", features = ["connection-manager", "tokio-comp"] }
sha1 = "0.10"
thiserror = "*"
totp-rs = "5"
tracing = "0.1"
uuid = "1"
