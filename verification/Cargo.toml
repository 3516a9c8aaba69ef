[package]
name = "readwrite"
version = "0.2.0"
edition = "2021"
publish = false

[dependencies]
futures = "0.3"
pin-project-lite = "0.2"
tokio = "1"
