[package]
name = "tg_ai_companion"
version = "0.1.0"
edition = "2021"
publish = false

[dependencies]
actix-cors = "=0.7.2"
actix-web = { version = "=4.18.1", default-features = false, features = ["macros"] }
actix-web-httpauth = "=0.8.3"
async-trait = "=0.1.92"
dotenv = "=0.15.0"
reqwest = { version = "=0.12.28", features = ["json"] }
serde = { version = "=1.0.229", features = ["derive"] }
serde_json = "=1.0.154"
