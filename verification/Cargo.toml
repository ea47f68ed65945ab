[package]
name = "id_registry"
version = "0.1.0"
edition = "2021"
publish = false

[dependencies]
anyhow = "1"
r2d2 = "0.8"
r2d2_sqlite = "*"
rand = "0.8"
rocket = { version = "0.5", features = ["json"] }
rusqlite = { version = "*", features = ["bundled"] }
serde = { version = "1", features = ["derive"] }
serde_json = "1"
winreg = "*"
