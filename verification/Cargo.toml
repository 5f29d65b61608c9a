[package]
name = "chatbot"
version = "0.1.0"
edition = "2021"
publish = false

[dependencies]
anyhow = "=1.0.104"
chrono = "=0.4.45"
serde = { version = "=1.0.229", features = ["derive"] }
serde_json = "=1.0.154"
uuid = { version = "=1.29.0", features = ["v4"] }
image = { version = "=0.25.10", default-features = false, features = ["png", "jpeg", "gif", "webp"] }
tokio = { version = "=1.54.1", features = ["full"] }
reqwest = { version = "=0.12.28", default-features = false, features = ["json", "rustls-tls"] }
serenity = { version = "=0.12.5", default-features = false, features = ["client", "gateway", "model", "http", "rustls_backend", "cache"] }
regex = "=1.13.1"
urlencoding = "=2.1.3"
url = "=2.5.8"
minijinja = "=2.24.0"
minijinja-contrib = { version = "=2.24.0", features = ["pycompat"] }
toml = "=0.8.23"
once_cell = "=1.21.4"
html2md = "=0.2.17"
readability = { version = "=0.3.0", default-features = false }
rs-trafilatura = "=0.2.2"
llama-cpp-2 = { version = "*", features = ["mtmd"] }
