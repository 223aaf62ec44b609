[package]
name = "sorahk"
version = "0.1.0"
edition = "2021"
publish = false

[dependencies]
smallvec = { version = "1", features = ["serde"] }
serde = { version = "1", features = ["derive"] }
toml = "*"
anyhow = "1"

[dev-dependencies]
toml = "*"
