[package]
name = "next_ui"
version = "0.1.0"
edition = "2021"
publish = false

[dependencies]
tokio-util = "0.7"
uuid = { version = "1", features = ["v4"] }
serde = { version = "1", features = ["derive"] }
directories = "*"
url = "2"
async-trait = "0.1"
rust-embed = "8"
iced = { version = "*", default-features = false }
