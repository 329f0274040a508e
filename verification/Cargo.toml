[package]
name = "evaluator"
version = "0.1.0"
edition = "2021"
publish = false

[dependencies]
anyhow = "=1.0.104"
clap = { version = "=4.6.7", features = ["derive"] }
serde_json = "=1.0.154"
shakmaty = "=0.21.4"
tokio = { version = "=1.54.1", features = ["io-util", "macros", "process", "rt-multi-thread", "sync"] }
vampirc-uci = "=0.11.1"
