[package]
name = "postbot"
version = "0.1.0"
edition = "2021"
publish = false

[dependencies]
dashmap = "5"
dotenv = "0.15"
fred = "5"
futures = "0.3"
poise = "0.3"
rand = "0.8"
rs621 = "*"
thiserror = "1"
tokio = { version = "1", features = ["full"] }
tracing = "0.1"
tracing-subscriber = "0.3"
