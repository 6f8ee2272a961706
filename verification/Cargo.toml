[package]
name = "notesponge"
version = "0.1.0"
edition = "2021"
publish = false

[dependencies]
base64 = "=0.22.1"
indexmap = "=2.14.2"
serde_json = "=1.0.154"
sqlx = { version = "=0.8.6", default-features = false, features = ["sqlite", "runtime-tokio", "json"] }
tokio = { version = "=1.54.1", features = ["sync"] }
