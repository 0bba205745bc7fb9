[package]
name = "kitchen"
version = "0.1.0"
edition = "2021"
publish = false

[dependencies]
serde_json = "=1.0.151"
html-escape = "=0.2.15"
scraper = "=0.27.0"
iso8601 = { version = "=0.6.6", features = ["serde"] }
serde = { version = "*", features = ["derive"] }
thiserror = "*"
url = "*"
headers = "*"
tracing = "*"
tokio = { version = "*", features = ["sync"] }
reqwest = { version = "*", default-features = false }
openapiv3 = "*"
indexmap = "*"
