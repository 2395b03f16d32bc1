[package]
name = "latuicon"
version = "0.1.0"
edition = "2021"
publish = false

[dependencies]
clap = { version = "=4.6.7", features = ["env", "string"] }
toml = "=1.1.8"
dirs = "=7.0.0"
serde = { version = "1", features = ["derive"] }
crossterm = "*"
