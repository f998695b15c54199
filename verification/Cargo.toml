[package]
name = "mc_discord_bot"
version = "0.1.0"
edition = "2021"
publish = false

[dependencies]
regex = "1"
simple_config_parser = "*"
serenity = "0.11"
tokio = { version = "1", features = ["rt-multi-thread", "macros"] }
chrono = "0.4"
crossbeam-channel = "0.5"
parking_lot = "0.12"
lazy_static = "1"
async-trait = "0.1"
