[package]
name = "pairsignal"
version = "0.1.0"
edition = "2021"
publish = false

[dependencies]
anyhow = "*"
dashmap = "*"
dotenvy = "*"
futures = "*"
rust_decimal = "*"
tokio = { version = "*", features = ["rt-multi-thread", "macros", "time", "sync"] }
tracing = "*"
