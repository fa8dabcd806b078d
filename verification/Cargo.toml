[package]
name = "solana_vanity"
version = "0.1.0"
edition = "2021"
publish = false

[dependencies]
solana-sdk = "*"
bs58 = "*"
rayon = "*"
num_cpus = "*"
actix-web = "4"
serde = { version = "*", features = ["derive"] }
serde_json = "*"
clap = { version = "*", features = ["derive"] }
