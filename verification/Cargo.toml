[package]
name = "zazu-sdk"
version = "0.2.1"
edition = "2021"
publish = false

[dependencies]
serde_json = "1"
ureq = { version = "3", features = ["json"] }
