[package]
name = "stranslate_host"
version = "0.1.0"
edition = "2021"
publish = false

[dependencies]
chrono = { version = "0.4", default-features = false, features = ["clock"] }
clap = { version = "4", features = ["derive"] }
zip = { version = "*", default-features = false, features = ["deflate"] }
