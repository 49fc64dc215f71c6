[package]
name = "isaword"
version = "0.1.0"
edition = "2021"
publish = false

[dependencies]
scraper = "*"
colored = "2"
serde_json = "1"
url = "2"
reqwest = { version = "0.12", default-features = false, features = ["json", "rustls-tls"] }
tokio = { version = "1", features = ["macros", "rt-multi-thread"] }
clap = { version = "4", features = ["derive"] }
