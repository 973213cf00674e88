[package]
name = "r0le"
version = "0.1.0"
edition = "2021"
publish = false

[dependencies]
serenity = { version = "0.10", features = ["collector", "unstable_discord_api"] }
redis = { version = "0.21", features = ["tokio-comp", "connection-manager"] }
tokio = { version = "1", features = ["macros", "rt-multi-thread"] }
futures = "0.3"
futures-util = "0.3"
log = "0.4"
thiserror = "1"
clap = { version = "3", features = ["derive"] }
