[package]
name = "eio-daemon"
version = "0.1.0"
edition = "2021"
publish = false

[dependencies]
anyhow = "1"
base64 = "0.22"
clap = { version = "4", features = ["derive"] }
getrandom = "0.3"
p256 = { version = "0.13", features = ["ecdsa", "pem"] }
serde = { version = "1", features = ["derive"] }
serde_json = "1"
sha2 = "0.10"
similar = "2"
time = { version = "0.3", features = ["formatting"] }
toml = "0.8"
