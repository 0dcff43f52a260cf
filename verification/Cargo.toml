[package]
name = "chat_hub"
version = "0.1.0"
edition = "2021"
publish = false

[dependencies]
uuid = { version = "=1.27.0", features = ["v4"] }
serde_json = "=1.0.151"
actix = "*"
actix-web = { version = "*", default-features = false, features = ["macros", "ws"] }
actix-web-actors = "*"
actix-cors = "*"
log = "*"
env_logger = "*"
