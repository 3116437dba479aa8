[package]
name = "capoomobi"
version = "0.1.0"
edition = "2021"
publish = false

[dependencies]
yaml-rust = "0.4"
serde = { version = "1", features = ["derive"] }
handlebars = "3"
