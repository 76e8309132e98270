[package]
name = "config_link"
version = "0.1.0"
edition = "2021"
publish = false

[dependencies]
async-std = { version = "1", features = ["attributes"] }
serde = { version = "1", features = ["derive"] }
structopt = "0.3"
thiserror = "1"
toml = "0.5"
