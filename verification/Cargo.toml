[package]
name = "spacepods"
version = "0.1.0"
edition = "2021"
publish = false

[dependencies]
uuid = "1"
tokio = { version = "1", features = ["full"] }
btleplug = "0.11"
futures = "0.3"
serde = { version = "1", features = ["derive"] }
serde_json = "1"
thiserror = "1"
anyhow = "1"
clap = { version = "4", features = ["derive"] }
rustyline = "15"
rustyline-derive = "0.11"
