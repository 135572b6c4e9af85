[package]
name = "obs_relay"
version = "0.1.0"
edition = "2021"
publish = false

[dependencies]
serde_json = "*"
reqwest = "*"
tokio = { version = "*", features = ["macros", "rt-multi-thread"] }
poise = "*"
serenity = "*"
