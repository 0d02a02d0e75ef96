[package]
name = "katatsuki"
version = "0.1.0"
edition = "2021"
publish = false

[dependencies]
chrono = { version = "=0.4.45", default-features = false, features = ["clock"] }
imagesize = "=0.15.0"
num-traits = "=0.2.19"
