[package]
name = "reddsaver"
version = "0.1.0"
edition = "2021"
publish = false

[dependencies]
image = "0.25"
log = "0.4"
md5 = "0.7"
reqwest = "0.12"
tokio = { version = "1", features = ["rt"] }
