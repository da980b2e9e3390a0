[package]
name = "ghtool"
version = "0.1.0"
edition = "2021"
publish = false

[dependencies]
clap = "4"
futures = "0.3"
hubcaps = "*"
serde = { version = "1", features = ["derive"] }
toml = "*"
