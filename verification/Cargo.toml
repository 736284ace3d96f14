[package]
name = "gurtle"
version = "0.1.0"
edition = "2021"
publish = false

[dependencies]
actix-web = "*"
chrono = "*"
futures = "*"
mongodb = "*"
serde = { version = "*", features = ["derive"] }
sha256 = "*"
