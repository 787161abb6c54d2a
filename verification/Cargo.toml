[package]
name = "charoite"
version = "0.1.0"
edition = "2021"
publish = false

[dependencies]
serde_json = "*"
sha2 = "*"
urlencoding = "*"
serde = { version = "*", features = ["derive"] }
serde_yaml = "*"
clap = { version = "*", features = ["derive"] }
ansi_term = "*"
chrono = "*"
reqwest = { version = "*", default-features = false, features = ["blocking", "json"] }
