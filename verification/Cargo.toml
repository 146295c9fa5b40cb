[package]
name = "gdk_rust"
version = "0.1.0"
edition = "2021"
publish = false

[dependencies]
android_logger = "0.11"
base64 = "0.13"
bitcoin = "0.29"
block-modes = "0.8"
electrum-client = { version = "0.12", default-features = false }
elements = "0.21"
libc = "0.2"
log = "0.4"
serde = { version = "1", features = ["derive"] }
serde_cbor = "0.11"
serde_json = "1"
thiserror = "1"
ureq = { version = "2", default-features = false }
