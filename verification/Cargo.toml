[package]
name = "watcher"
version = "0.1.0"
edition = "2021"
publish = false

[dependencies]
globset = "*"
notify = "*"
