[package]
name = "jobfeed"
version = "0.1.0"
edition = "2021"
publish = false

[dependencies]
libxml = "=0.3.3"
axum = { version = "=0.8.9", features = ["multipart"] }
serde = { version = "=1.0.229", features = ["derive"] }
log = "=0.4.34"
