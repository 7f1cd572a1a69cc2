[package]
name = "sam3"
version = "0.1.0"
edition = "2021"
publish = false

[dependencies]
sha2 = "0.10"
base64 = "0.22"
serde = { version = "1", features = ["derive"] }
serde_json = "1"
clap = { version = "4", features = ["derive"] }
minijinja = "2"
tempfile = "3"
zip = { version = "2", default-features = false }
