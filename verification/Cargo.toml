[package]
name = "dsa"
version = "0.1.0"
edition = "2021"
publish = false

[dependencies]
serde = { version = "1", features = ["derive"] }
serde_json = "1"
chrono = "0.4"
uuid = { version = "1", features = ["v4"] }
urlencoding = "2"
clap = { version = "4", features = ["derive"] }
actix-web = "4"
reqwest = { version = "0.12", default-features = false, features = ["json"] }
