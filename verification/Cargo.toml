[package]
name = "twitter_archive"
version = "0.1.0"
edition = "2021"
publish = false

[dependencies]
chrono = { version = "0.4", default-features = false, features = ["std"] }
derive_more = "0.99"
serde = { version = "1", features = ["derive"] }
serde_json = "1"
