[package]
name = "amaterasu"
version = "0.1.0"
edition = "2021"
publish = false

[dependencies]
anyhow = "1"
clap = "4"
futures = "0.3"
indicatif = "0.17"
num_cpus = "1"
rand = "0.8"
rand_chacha = "0.3"
serde = { version = "1", features = ["derive"] }
tokio = { version = "1", features = ["full"] }
toml = "0.8"
