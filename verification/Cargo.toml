[package]
name = "torznab"
version = "0.1.0"
edition = "2021"
publish = false

[dependencies]
rss = "*"
urlencoding = "*"
reqwest = { version = "*", default-features = false, features = ["gzip"] }
thiserror = "*"
