[package]
name = "steam_sync"
version = "0.1.0"
edition = "2021"
publish = false

[dependencies]
serde_json = "*"
rusqlite = { version = "*", features = ["bundled"] }
reqwest = { version = "*", default-features = false, features = ["blocking"] }
argh = "*"
