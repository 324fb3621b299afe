[package]
name = "guild_player"
version = "0.1.0"
edition = "2021"
publish = false

[dependencies]
dotenv = "0.15"
regex = "1"
serenity = { version = "0.10", features = ["voice"] }
songbird = "0.2"
tokio = { version = "1", features = ["macros", "rt-multi-thread"] }
