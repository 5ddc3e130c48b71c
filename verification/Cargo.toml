[package]
name = "polymarket_cli"
version = "0.1.0"
edition = "2021"
publish = false

[dependencies]
anyhow = "*"
clap = { version = "*", features = ["derive"] }
serde_json = "*"
tabled = "*"
tokio = { version = "*", features = ["macros", "rt-multi-thread"] }
