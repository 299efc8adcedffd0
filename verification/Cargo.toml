[package]
name = "favicon_resolver"
version = "0.1.0"
edition = "2021"
publish = false

[dependencies]
url = "2"
serde_json = "1"
soup = "0.5"
image = "0.24"
