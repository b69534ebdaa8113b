[package]
name = "icd_extract"
version = "0.1.0"
edition = "2021"
publish = false

[dependencies]
csv = "1"
pdf-extract = "*"
regex = "1"
serde = { version = "1", features = ["derive"] }
serde_json = "1"
