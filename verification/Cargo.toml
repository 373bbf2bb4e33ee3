[package]
name = "blog"
version = "0.2.0"
edition = "2021"

[dependencies]
anyhow = "*"
colored = "*"
convert_case = "*"
pathdiff = "*"
serde = { version = "*", features = ["derive"] }
toml = "*"
walkdir = "*"
