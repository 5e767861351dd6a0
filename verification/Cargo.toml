[package]
name = "cryptodash"
version = "0.1.0"
edition = "2021"
publish = false

[dependencies]
serde = { version = "1", features = ["derive"] }
serde_json = "1"
reqwest = { version = "0.11", default-features = false, features = ["blocking", "rustls-tls"] }
crossterm = "0.25"
tui = { version = "0.19", default-features = false, features = ["crossterm"] }
