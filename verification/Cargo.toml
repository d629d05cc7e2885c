[package]
name = "wechat_sdk"
version = "0.1.0"
edition = "2021"
publish = false

[dependencies]
serde = { version = "1", features = ["derive"] }
sha1 = "0.10"
urlencoding = "2"
serde_json = "1"
chrono = { version = "0.4", default-features = false, features = ["clock", "std"] }
reqwest = { version = "0.12", default-features = false }
deadpool-redis = "0.22"
actix-web = { version = "4", default-features = false }
async-trait = "0.1"
