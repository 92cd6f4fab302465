[package]
name = "apk"
version = "0.1.0"
edition = "2021"
publish = false

[dependencies]
serde_json = "1"
tera = "1"
tokio = { version = "0.2", features = ["macros", "rt-threaded", "time"] }
warp = { version = "0.2", default-features = false }
