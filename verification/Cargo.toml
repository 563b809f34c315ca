[package]
name = "bananagrabber"
version = "0.1.0"
edition = "2021"
publish = false

[dependencies]
anyhow = "*"
color-backtrace = "*"
log = "*"
pretty_env_logger = "*"
reqwest = { version = "*", features = ["json"] }
serde = { version = "*", features = ["derive"] }
serde_json = "*"
serenity = "0.11"
tokio = { version = "*", features = ["macros", "rt-multi-thread"] }
