[package]
name = "oxidized_alpha"
version = "0.1.0"
edition = "2021"
publish = false

[dependencies]
miniz_oxide = "=0.9.1"
irox-bits = { version = "=0.5.0", features = ["std"] }
tracing = "=0.1.44"
tracing-subscriber = "=0.3.23"
