[package]
name = "llrt_web"
version = "0.1.0"
edition = "2021"
publish = false

[dependencies]
rquickjs = { version = "*", features = ["macro", "classes", "properties", "array-buffer"] }
sha2 = "0.10"
