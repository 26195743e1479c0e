[package]
name = "blog_core"
version = "0.1.0"
edition = "2021"
publish = false

[dependencies]
jsonwebtoken = "9"
argon2 = "0.5"
rand_core = { version = "0.6", features = ["getrandom"] }
serde_json = "1"
serde = { version = "1", features = ["derive"] }
actix-web = "4"
dotenvy = "0.15"
