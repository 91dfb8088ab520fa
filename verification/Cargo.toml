[package]
name = "token_gate"
version = "0.1.0"
edition = "2021"
publish = false

[dependencies]
jsonwebtoken = "9"
serde_json = "1"
serde = { version = "1", features = ["derive"] }
actix-web = "4"
reqwest = { version = "0.12", features = ["json"] }
tokio = { version = "1", features = ["sync", "macros", "rt-multi-thread"] }
dotenv = "0.15"
log = "0.4"
pretty_env_logger = "0.5"
azure_core = "*"
azure_identity = "*"
