[package]
name = "direnv_status"
version = "0.1.0"
edition = "2021"
publish = false

[dependencies]
log = "0.4"
serde_json = "1"
sha2 = "0.10"
