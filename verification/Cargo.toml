[package]
name = "wasi_http_client"
version = "0.1.0"
edition = "2021"
publish = false

[dependencies]
url = "2"
serde_json = "1"
serde_urlencoded = "0.7"
wasi = "0.14"
