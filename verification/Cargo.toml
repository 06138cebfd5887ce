[package]
name = "lnurl_dummy"
version = "0.1.0"
edition = "2021"
publish = false

[dependencies]
anyhow = "1"
axum = "0.6"
bitcoin = "0.32"
clap = { version = "4", features = ["derive", "env"] }
hex = "0.4"
lnurl-rs = { version = "*", default-features = false }
rand = "0.8"
serde = { version = "1", features = ["derive"] }
serde_json = "1"
tokio = { version = "1", features = ["macros", "rt-multi-thread", "signal"] }
tower-http = { version = "0.4", features = ["cors"] }
