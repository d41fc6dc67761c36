[package]
name = "human-in-the-loop"
version = "0.1.0"
edition = "2021"
publish = false

[dependencies]
anyhow = "1"
async-trait = "0.1"
clap = { version = "4", features = ["derive", "env"] }
rmcp = { version = "0.2", features = ["server", "macros", "transport-io"] }
schemars = "0.8"
serde = { version = "1", features = ["derive"] }
serenity = { version = "0.12", features = ["collector"] }
tokio = { version = "1", features = ["macros", "rt-multi-thread", "io-std", "sync"] }
