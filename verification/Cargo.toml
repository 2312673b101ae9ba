[package]
name = "mavlink_io"
version = "0.1.0"
edition = "2021"
publish = false

[dependencies]
anyhow = "1"
mavlink = { version = "*", default-features = false, features = ["std", "udp", "common"] }
