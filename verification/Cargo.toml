[package]
name = "compile_explorer"
version = "0.1.0"
edition = "2021"
publish = false

[dependencies]
rand = "0.8"
serde_json = "1"
serde = { version = "1", features = ["derive"] }
tempfile = "3"
anyhow = "1"
log = "0.4"
env_logger = "*"
actix-cors = "*"
actix-web = { version = "4", default-features = false, features = ["macros"] }
