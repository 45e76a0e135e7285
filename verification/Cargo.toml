[package]
name = "scholar"
version = "0.1.0"
edition = "2021"

[dependencies]
scraper = "*"
reqwest = "*"
