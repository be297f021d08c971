[package]
name = "shran"
version = "0.1.0"
edition = "2021"
publish = false

[dependencies]
chrono = "0.4"
clap = "3"
curl = "0.4"
flate2 = "1"
octocrab = "0.16"
serde = { version = "1", features = ["derive"] }
serde_yaml = "0.8"
tar = "0.4"
thiserror = "1"
tokio = { version = "1", features = ["macros", "rt-multi-thread"] }
