[package]
name = "followcast"
version = "0.1.0"
edition = "2021"
publish = false

[dependencies]
anyhow = "1"
chrono = "0.4"
dotenv = "0.15"
envy = "0.4"
fern = "0.6"
hyper = { version = "0.14", features = ["full"] }
hyper-tls = "0.5"
log = "0.4"
serde = { version = "1", features = ["derive"] }
serde_derive = "1"
serde_json = "1"
serenity = { version = "0.10", features = ["voice", "cache", "standard_framework", "client"] }
songbird = "0.1"
tokio = { version = "1", features = ["full"] }
