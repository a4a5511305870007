[package]
name = "chat_stream"
version = "0.1.0"
edition = "2021"
publish = false

[dependencies]
comrak = { version = "0.39", default-features = false, features = ["syntect"] }
dioxus = { version = "0.6", default-features = false, features = ["macro", "html", "signals", "hooks", "launch", "mounted", "document", "asset", "router"] }
reqwest = { version = "0.12", default-features = false }
serde = { version = "1", features = ["derive"] }
