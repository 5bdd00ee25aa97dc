[package]
name = "ota_update"
version = "0.1.0"
edition = "2021"
publish = false

[dependencies]
clap = "*"
reqwest = { version = "*", default-features = false, features = ["blocking", "json"] }
serde = { version = "*", features = ["derive"] }
uuid = "*"
