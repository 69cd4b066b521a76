[package]
name = "shard_supervisor"
version = "0.1.0"
edition = "2021"
publish = false

[dependencies]
dotenv = "*"
serenity = "0.11"
tokio = { version = "1", features = ["macros", "rt-multi-thread"] }
