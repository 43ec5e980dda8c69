[package]
name = "lingua"
version = "0.1.0"
edition = "2021"
publish = false

[dependencies]
serde_json = "1"
serde = "1"
log = "0.4"
thiserror = "1"
