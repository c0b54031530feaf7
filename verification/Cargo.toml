[package]
name = "timer_server"
version = "0.1.0"
edition = "2021"
publish = false

[dependencies]
argon2 = { version = "0.5", features = ["std"] }
base64 = "0.21"
actix-web = "4"
actix-files = "0.6"
actix-web-lab = "0.20"
diesel = { version = "2", features = ["postgres", "r2d2", "uuid"] }
diesel_migrations = { version = "2", features = ["postgres"] }
dotenvy = "0.15"
futures = "0.3"
serde = { version = "1", features = ["derive"] }
tokio = { version = "1", features = ["sync", "rt", "time"] }
tokio-stream = "0.1"
uuid = "1"
config = { version = "0.14", default-features = false, features = ["ini"] }
