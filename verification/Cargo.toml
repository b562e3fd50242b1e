[package]
name = "oauth_loopback"
version = "0.1.0"
edition = "2021"
publish = false

[dependencies]
url = "2"
once_cell = "1"
serde = { version = "1", features = ["derive"] }
tokio = { version = "1", features = ["net", "sync", "time", "rt", "macros"] }
tokio-stream = { version = "0.1", features = ["net"] }
warp = { version = "0.3", default-features = false }
