[package]
name = "daily_strip"
version = "0.1.0"
edition = "2021"
publish = false

[dependencies]
scraper = "*"
rss = "*"
rand = "*"
tokio = { version = "*", features = ["rt-multi-thread", "sync", "macros", "fs", "io-util"] }
tokio-util = "*"
reqwest = { version = "*", default-features = false, features = ["rustls-tls"] }
