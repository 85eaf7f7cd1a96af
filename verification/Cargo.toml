[package]
name = "nami"
version = "0.1.0"
edition = "2021"
publish = false

[dependencies]
url = "2"
lightningcss = "1.0.0-alpha.50"
html5ever = "0.29"
markup5ever = "0.14"
serde = { version = "1", features = ["derive"] }
serde_json = "1"
taffy = "0.6"
reqwest = { version = "0.12", default-features = false, features = ["rustls-tls", "cookies", "gzip", "brotli"] }
tokio = { version = "1", features = ["rt-multi-thread", "macros"] }
clap = { version = "4", features = ["derive", "env"] }
anyhow = "1"
thiserror = "1"
dirs = "5"
tracing = "0.1"
tracing-subscriber = { version = "0.3", features = ["env-filter"] }
