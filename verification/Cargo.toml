[package]
name = "grpchub"
version = "0.1.0"
edition = "2021"
publish = false

[dependencies]
clap = { version = "4", features = ["derive"] }
dashmap = "6"
prost = "0.13"
tokio = { version = "1", features = ["macros", "rt-multi-thread", "sync"] }
tokio-stream = "0.1"
tonic = { version = "0.13", features = ["tls-ring", "zstd"] }
tonic-health = "0.13"
tonic-reflection = "0.13"
