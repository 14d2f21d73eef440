[package]
name = "cdtest"
version = "0.2.0"
edition = "2021"
publish = false

[dependencies]
clap = "4"
humantime = "2"
toml = { version = "0.8", features = ["preserve_order"] }
