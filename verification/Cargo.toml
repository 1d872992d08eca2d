[package]
name = "stock_watch"
version = "0.1.0"
edition = "2021"

[dependencies]
scraper = "*"
reqwest = { version = "*", default-features = false, features = ["rustls-tls", "gzip"] }
tokio = { version = "*", features = ["rt-multi-thread", "macros", "time"] }
aws-config = "*"
aws-sdk-sns = "*"
dotenv = "*"
env_logger = "*"
log = "*"
chrono = "*"
