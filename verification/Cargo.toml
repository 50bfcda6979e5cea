[package]
name = "agent_workflow"
version = "0.1.0"
edition = "2021"
publish = false

[dependencies]
anyhow = "1"
dotenv = "0.15"
meval = "0.2"
serde = { version = "1", features = ["derive"] }
serde_json = "1"
swarms-rs = "*"
tokio = { version = "1", features = ["macros", "rt-multi-thread"] }
tracing-subscriber = { version = "0.3", features = ["env-filter"] }
