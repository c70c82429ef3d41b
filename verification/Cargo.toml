[package]
name = "simls"
version = "0.1.0"
edition = "2021"
publish = false

[dependencies]
clap = { version = "4", features = ["derive"] }
colored = "2"
dialoguer = "0.11"
serde = { version = "1", features = ["derive"] }
serde_json = "1"
