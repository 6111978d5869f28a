[package]
name = "jelly"
version = "0.1.0"
edition = "2021"
publish = false

[dependencies]
actix-http = { version = "3", default-features = false }
actix-service = "2"
actix-session = "*"
actix-web = { version = "4", default-features = false, features = ["cookies"] }
futures = "0.3"
