[package]
name = "octopus_desktop"
version = "0.1.0"
edition = "2021"
publish = false

[dependencies]
unicode-normalization = "0.1"
serde_json = "1"
zip = { version = "2", default-features = false, features = ["deflate"] }
dirs = "5"
