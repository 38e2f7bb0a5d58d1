[package]
name = "opengraph"
version = "0.1.0"
edition = "2021"
publish = false

[dependencies]
tl = "*"
url = "*"
quick_cache = "*"
reqwest = { version = "*", default-features = false }
tokio = { version = "*", features = ["rt-multi-thread", "macros", "net", "sync"] }
axum = "*"
serde = { version = "*", features = ["derive"] }
