[package]
name = "hideseek"
version = "0.1.0"
edition = "2021"
publish = false

[dependencies]
uuid = "1"
serde_json = "1"
dioxus = { version = "0.7", default-features = false, features = ["macro", "html", "signals", "hooks", "launch", "document", "asset", "router"] }
clap = { version = "4", features = ["derive"] }
dotenvy = "0.15"
axum = { version = "0.8", default-features = false }
