[package]
name = "malvolio"
version = "0.1.0"
edition = "2021"
publish = false

[dependencies]
ammonia = "*"

[dev-dependencies]
scraper = "*"
