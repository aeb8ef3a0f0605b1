[package]
name = "classification_bench"
version = "0.1.0"
edition = "2021"
publish = false

[dependencies]
csv = "1"
rand = "0.8"
rustlearn = "0.5"
serde = { version = "1", features = ["derive"] }
serde_derive = "1"
