[package]
name = "retry_after"
version = "0.1.0"
edition = "2021"
publish = false

[dependencies]
async-std = "1"
chrono = "0.4"
http-types = "2"
log = "0.4"
