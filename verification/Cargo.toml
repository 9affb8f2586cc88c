[package]
name = "emdash"
version = "0.1.0"
edition = "2021"
publish = false

[dependencies]
sha1 = "0.10"
hex = "0.4"
chrono = "0.4"
serde_json = "1.0"
