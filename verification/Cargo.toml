[package]
name = "teralaunch"
version = "0.1.0"
edition = "2021"
publish = false

[dependencies]
sha2 = "0.10"
serde = { version = "1", features = ["derive"] }
serde_json = "1"
reqwest = { version = "0.12", default-features = false, features = ["blocking", "json"] }
walkdir = "2"
rayon = "1"
rust-ini = "0.21"
dotenv = "0.15"
