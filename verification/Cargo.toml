[package]
name = "ensure-update"
version = "0.1.0"
edition = "2021"
publish = false

[dependencies]
abseil = "*"
clap = { version = "*", features = ["derive"] }
jiff = { version = "*", features = ["serde"] }
