[package]
name = "textpipe"
version = "0.1.0"
edition = "2021"
publish = false

[dependencies]
ahash = "*"
unicode-segmentation = "*"
uuid = { version = "*", features = ["v4"] }
