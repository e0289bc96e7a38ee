[package]
name = "pdf_triage"
version = "0.1.0"
edition = "2021"
publish = false

[dependencies]
lopdf = "*"
reqwest = { version = "*", default-features = false, features = ["multipart"] }
serde = { version = "*", features = ["derive"] }
serde_json = "*"
serde_with = "*"
