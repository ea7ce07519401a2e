[package]
name = "feed_relay"
version = "0.1.0"
edition = "2021"
publish = false

[dependencies]
anyhow = "1"
base64 = "=0.21.7"
dotenvy = "0.15"
http = "1"
reqwest = { version = "0.12", default-features = false, features = ["rustls-tls"] }
rss = "=2.1.2"
scraper = "=0.17.1"
slack-morphism = { version = "2", features = ["hyper"] }
sqlx = { version = "0.8", default-features = false, features = ["sqlite", "runtime-tokio", "derive", "migrate"] }
tokio = { version = "1", features = ["full"] }
url = "=2.5.8"
