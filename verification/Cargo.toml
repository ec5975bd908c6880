[package]
name = "pullpiri"
version = "0.1.0"
edition = "2021"
publish = false

[dependencies]
serde = { version = "1", features = ["derive"] }
serde_yaml = "0.9"
tokio = { version = "1", features = ["macros", "rt-multi-thread", "time"] }
tonic = "0.12"
prost = "0.13"
clap = { version = "4", features = ["derive", "env"] }
colored = "2"
reqwest = { version = "0.12", default-features = false }
