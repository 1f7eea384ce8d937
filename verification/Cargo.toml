[package]
name = "paperclip"
version = "0.1.0"
edition = "2021"
publish = false

[dependencies]
chess = "3.2"
getrandom = "0.3"
semver = "1"
serde = { version = "1", features = ["derive"] }
tempfile = "3"
thiserror = "2"
toml = "*"
