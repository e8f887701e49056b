[package]
name = "prep"
version = "0.1.0"
edition = "2021"
publish = false

[dependencies]
anyhow = "1"
cargo_metadata = "*"
clap = { version = "4", features = ["derive"] }
directories = "*"
regex = "1"
semver = { version = "1", features = ["serde"] }
serde = { version = "1", features = ["derive"] }
time = { version = "0.3", features = ["serde-human-readable"] }
toml = "*"
