[package]
name = "osc_servo"
version = "0.1.0"
edition = "2021"
publish = false

[dependencies]
anyhow = "1"
clap = { version = "4", features = ["derive"] }
ctrlc = "3"
dialoguer = "0.11"
serde_json = "1"
