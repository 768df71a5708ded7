[package]
name = "tempo"
version = "0.4.0"
edition = "2021"
publish = false

[dependencies]
chrono = "0.4"
csv = "1"
fs2 = "0.4"
rusqlite = { version = "*", features = ["backup", "bundled"] }
serde = { version = "1", features = ["derive"] }
serde_json = "1"
single-instance = "*"
sys-locale = "0.3"
thiserror = "*"
