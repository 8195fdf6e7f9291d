[package]
name = "wh_updater_client"
version = "0.1.0"
edition = "2021"
publish = false

[dependencies]
version-compare = "0.2"
crc32fast = "1"
anyhow = "1"
log = "0.4"
reqwest = { version = "0.12", default-features = false, features = ["blocking", "rustls-tls", "gzip", "stream"] }
tempfile = "3"
zip = { version = "0.6", default-features = false, features = ["deflate"] }
indicatif = "0.17"
futures-util = "0.3"
smol = "2"
async-compat = "0.2"
native-dialog = "0.7"
winreg = "0.52"
