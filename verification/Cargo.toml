[package]
name = "duckup"
version = "0.1.0"
edition = "2021"
publish = false

[dependencies]
anyhow = "1"
clap = "4"
dirs = "5"
inquire = "0.7"
serde_json = "1"
tempfile = "3"
ureq = "2"
zip = { version = "2", default-features = false, features = ["deflate"] }
