[package]
name = "air_browser"
version = "0.1.0"
edition = "2021"
publish = false

[dependencies]
boa_engine = "*"
scraper = "*"
