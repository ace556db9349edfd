[package]
name = "det"
version = "0.1.0"
edition = "2021"
publish = false

[dependencies]
serde_yaml = "0.9"
indexmap = "2"
anyhow = "1"
thiserror = "1"
