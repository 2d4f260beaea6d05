[package]
name = "ticket_service"
version = "0.1.0"
edition = "2021"
publish = false

[dependencies]
uuid = { version = "*", features = ["v4"] }
actix-web = "*"
aws-config = "*"
aws-sdk-dynamodb = "*"
serde = { version = "*", features = ["derive"] }
derive_more = { version = "*", features = ["display"] }
log = "*"
env_logger = "*"
