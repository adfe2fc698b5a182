[package]
name = "http_exchange"
version = "0.1.0"
edition = "2021"
publish = false

[dependencies]
async-http-codec = "*"
async-net = "2"
futures = "0.3"
futures-rustls = "0.25"
http = "*"
lazy_static = "1"
rustls-pki-types = "1"
thiserror = "1"
webpki-roots = "0.25"
