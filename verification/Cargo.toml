[package]
name = "tas_agent"
version = "0.1.0"
edition = "2021"
publish = false

[dependencies]
aes-gcm = "0.10"
base64 = "0.22"
rand = "0.8"
rsa = { version = "0.9", features = ["sha2"] }
dotenv = "0.15"
hex = "0.4"
pretty-hex = "0.4"
serde = { version = "1", features = ["derive"] }
serde_json = "1"
tempfile = "3"
tokio = { version = "1", features = ["rt-multi-thread", "macros"] }
