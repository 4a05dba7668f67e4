[package]
name = "freitool"
version = "0.1.0"
edition = "2021"
publish = false

[dependencies]
jsonwebtoken = "=9.3.1"
serde_json = "=1.0.151"
reqwest = { version = "=0.12.28", default-features = false, features = ["blocking"] }
clap = "=4.6.7"

[dev-dependencies]
ring = "0.17"
