[package]
name = "wallabag_api"
version = "0.1.0"
edition = "2021"
publish = false

[dependencies]
serde_json = "1"
chrono = "0.4"
clap = "2"
log = "0.4"
simplelog = "0.12"
failure = "0.1"
