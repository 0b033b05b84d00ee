[package]
name = "mcp_client"
version = "0.1.0"
edition = "2021"
publish = false

[dependencies]
serde_json = "=1.0.151"
anyhow = "=1.0.104"
dotenvy = "=0.15.7"
genai = "=0.6.5"
rmcp = { version = "=3.5.1", features = ["client", "transport-child-process"] }
tokio = { version = "=1.53.2", features = ["macros", "rt-multi-thread", "io-std", "io-util", "process"] }
