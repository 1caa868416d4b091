[package]
name = "explorer"
version = "0.1.0"
edition = "2021"
publish = false

[dependencies]
md5 = "*"
serde = { version = "*", features = ["derive"] }
