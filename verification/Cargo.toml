[package]
name = "songdb"
version = "0.1.0"
edition = "2021"
publish = false

[dependencies]
anyhow = "1"
bincode = "1.3"
multipart = { version = "0.18", default-features = false, features = ["server"] }
serde = { version = "1", features = ["derive"] }
serde_json = "1"
wit-bindgen = "0.24"
