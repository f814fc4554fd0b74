[package]
name = "derived_cms"
version = "0.1.0"
edition = "2021"
publish = false

[dependencies]
axum = "*"
convert_case = "*"
serde = { version = "*", features = ["derive"] }
serde_json = "*"
urlencoding = "*"
