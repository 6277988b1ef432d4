[package]
name = "alphamon_cli"
version = "0.1.0"
edition = "2021"
publish = false

[dependencies]
alphamon-rs = "*"
anyhow = "*"
clap = { version = "*", features = ["derive"] }
humanize-duration = "*"
indoc = "*"
log = "*"
lovely_env_logger = "*"
tokio = { version = "*", features = ["macros", "rt-multi-thread"] }
