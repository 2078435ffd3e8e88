[package]
name = "fendesk"
version = "0.1.0"
edition = "2021"
publish = false

[dependencies]
fend-core = "*"
chrono = "*"
rand = "*"
serde = { version = "*", features = ["derive"] }
serde_json = "*"
reqwest = { version = "*", default-features = false, features = ["blocking"] }
dialog = "*"
