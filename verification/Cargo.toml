[package]
name = "nvml_wrapper"
version = "0.4.0"
edition = "2021"
publish = false

[dependencies]
serde = { version = "1", features = ["derive"] }
syn = { version = "0.11", features = ["full"] }
quote = "0.3"
