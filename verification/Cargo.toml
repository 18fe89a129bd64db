[package]
name = "report_types"
version = "0.1.0"
edition = "2021"
publish = false

[dependencies]
pep440_rs = "*"
pep508_rs = "*"
serde_json = { version = "1", features = ["preserve_order"] }
url = "2"
