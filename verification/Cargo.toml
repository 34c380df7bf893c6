[package]
name = "yahoo_finance"
version = "0.1.0"
edition = "2021"
publish = false

[dependencies]
chrono = "0.4"
reqwest = "*"
serde_json = "1"
snafu = "*"
