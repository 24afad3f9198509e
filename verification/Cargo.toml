[package]
name = "lastfm"
version = "0.1.0"
edition = "2021"
publish = false

[dependencies]
md5 = "=0.8.1"
serde = { version = "=1.0.229", features = ["derive"] }
serde_json = "=1.0.151"
reqwest = { version = "=0.13.5", default-features = false, features = ["json", "query", "form"] }
