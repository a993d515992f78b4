[package]
name = "sitemap"
version = "0.1.0"
edition = "2021"
publish = false

[dependencies]
chrono = "*"
chrono_utils = "*"
url = "*"
