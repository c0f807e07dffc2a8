[package]
name = "yuban"
version = "0.1.0"
edition = "2021"
publish = false

[dependencies]
base64 = "=0.13.1"
rand = "=0.8.8"
sha2 = "=0.9.9"
rust-argon2 = "=0.8.3"
serde = { version = "=1.0.229", features = ["derive"] }
serde_json = "=1.0.154"
lazy_static = "=1.5.1"
mysql = "=20.1.0"
rocket = { version = "=0.5.2", features = ["json"] }
clap = "=3.0.0-beta.2"
clap_derive = "=3.0.0-beta.2"
