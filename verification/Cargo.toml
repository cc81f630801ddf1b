[package]
name = "actix_rl"
version = "0.1.0"
edition = "2021"
publish = false

[dependencies]
actix-web = "*"
async-trait = "*"
chrono = "*"
futures-util = "*"
redis = { version = "*", features = ["tokio-comp"] }
tokio = { version = "*", features = ["sync", "rt", "time", "macros"] }
