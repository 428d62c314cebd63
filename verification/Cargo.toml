[package]
name = "pawbot"
version = "0.1.0"
edition = "2021"
publish = false

[dependencies]
rand = "0.9"
time = { version = "0.3", features = ["macros"] }
log = "0.4"
env_logger = "0.11"
dotenv = "0.15"
tokio = { version = "1", features = ["full"] }
sqlx = { version = "0.8", default-features = false, features = ["runtime-tokio", "postgres", "time", "macros", "migrate", "derive"] }
poise = "0.6"
serenity = "0.12"
axum = "0.8"
