[package]
name = "actix-framed"
version = "0.1.0"
edition = "2021"
publish = false

[dependencies]
actix-codec = "*"
actix-http = { version = "*", default-features = false }
actix-service = "*"
futures = "*"
log = "*"
