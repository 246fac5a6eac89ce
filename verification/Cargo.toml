[package]
name = "change_streams"
version = "0.1.0"
edition = "2021"
publish = false

[dependencies]
serde_json = "1"
time = { version = "0.3", features = ["formatting", "parsing"] }
