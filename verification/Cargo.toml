[package]
name = "margin"
version = "0.1.0"
edition = "2021"
publish = false

[dependencies]
dirs = "*"
notify = "*"
reqwest = { version = "0.12", default-features = false, features = ["json"] }
rusqlite = { version = "*", features = ["bundled"] }
serde = { version = "1", features = ["derive"] }
serde_json = "1"
uuid = { version = "1", features = ["v4"] }

[dev-dependencies]
tempfile = "3"
