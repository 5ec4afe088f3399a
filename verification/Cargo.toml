[package]
name = "indexer_client"
version = "0.1.0"
edition = "2021"
publish = false

[dependencies]
is-url = "*"
reqwest = { version = "*", default-features = false, features = ["blocking"] }
serde = { version = "*", features = ["derive"] }
serde_json = "*"
