[package]
name = "notion-core"
version = "0.1.0"
edition = "2021"
publish = false

[dependencies]
failure = "*"
reqwest = { version = "*", default-features = false }
semver = "*"
