[package]
name = "photonr"
version = "0.1.0"
edition = "2021"
publish = false

[dependencies]
rand = { version = "0.8", features = ["small_rng"] }
rayon = "1"
anyhow = "1"
clap = { version = "4", features = ["derive"] }
encoding_rs = "0.8"
image = "*"
serde = { version = "1", features = ["derive"] }
serde_json = "1"
