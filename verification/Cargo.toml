[package]
name = "shotpipe"
version = "0.1.0"
edition = "2021"
publish = false

[dependencies]
image = { version = "*", default-features = false, features = ["png"] }
base64 = "*"
md5 = "*"
arboard = "*"
tokio = { version = "*", features = ["rt", "sync", "time", "macros"] }
serde = { version = "*", features = ["derive"] }
