[package]
name = "crypto_news"
version = "0.1.0"
edition = "2021"
publish = false

[dependencies]
actix-files = "=0.6.10"
actix-web = { version = "=4.15.0", default-features = false, features = ["macros"] }
chrono = { version = "=0.4.45", features = ["serde"] }
dotenv = "=0.15.0"
reqwest = { version = "=0.12.28", default-features = false, features = ["json"] }
serde = { version = "=1.0.229", features = ["derive"] }
serde_json = "=1.0.151"
