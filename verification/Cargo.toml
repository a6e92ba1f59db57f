[package]
name = "prompt_schema"
version = "0.1.0"
edition = "2021"
publish = false

[dependencies]
serde_json = "1"
actix-web = { version = "4", default-features = false, features = ["macros"] }
