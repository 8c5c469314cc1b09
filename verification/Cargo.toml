[package]
name = "dyn_http_error"
version = "0.1.0"
edition = "2021"
publish = false

[dependencies]
anyhow = "*"
axum-core = "*"
http = "*"
log = "*"
