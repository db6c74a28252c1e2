[package]
name = "gpconnect"
version = "0.1.0"
edition = "2021"
publish = false

[dependencies]
libaes = "0.7"
hmac = "0.12"
sha1 = "0.10"
rand = "0.8"
pnet = "0.35"
hex = "0.4"
tokio = { version = "1", features = ["full"] }
async_smux = "0.3"
log = "0.4"
simplelog = "0.12"
serde = { version = "1", features = ["derive"] }
serde-xml-rs = "0.6"
reqwest = { version = "0.12", features = ["cookies"] }
base64 = "0.22"
