[package]
name = "api_tokens"
version = "0.1.0"
edition = "2021"
publish = false

[dependencies]
rand = "0.8"
sha2 = "0.10"
uuid = "1"
diesel = { version = "2", default-features = false, features = ["postgres", "uuid"] }
