[package]
name = "query_extractor"
version = "0.1.0"
edition = "2021"
publish = false

[dependencies]
serde = "*"
serde_qs = "*"
urlencoding = "*"
poem = "*"
thiserror = "*"
