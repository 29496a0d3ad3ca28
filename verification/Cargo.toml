[package]
name = "newsapi"
version = "0.1.0"
edition = "2021"
publish = false

[dependencies]
url = "2"
chrono = "0.4"
serde = { version = "1", features = ["derive"] }
ureq = { version = "2", features = ["json"] }
dotenv = "0.15"
