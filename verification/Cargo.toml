[package]
name = "web_push"
version = "0.1.0"
edition = "2021"
publish = false

[dependencies]
async-trait = "*"
http = "*"
reqwest = { version = "*", default-features = false }
