[package]
name = "lyric_sync"
version = "0.1.0"
edition = "2021"
publish = false

[dependencies]
anyhow = "1"
gtk4 = "*"
reqwest = "0.12"
tokio = { version = "1", features = ["rt-multi-thread"] }
url = "2"
