[package]
name = "ignite"
version = "0.1.0"
edition = "2021"
publish = false

[dependencies]
a2s = "*"
anyhow = "*"
clap = { version = "*", features = ["derive"] }
dotenvy = "*"
poise = "*"
serde = { version = "*", features = ["derive"] }
serde_json = "*"
tokio = { version = "*", features = ["macros", "rt-multi-thread"] }
tracing-subscriber = "*"
