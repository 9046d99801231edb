[package]
name = "opencode-orchestrator-mcp"
version = "0.1.0"
edition = "2021"
publish = false

[dependencies]
agentic_logging = "*"
agentic-tools-core = "*"
futures = "0.3"
opencode_rs = "*"
schemars = { version = "*", features = ["derive"] }
serde = { version = "1", features = ["derive"] }
serde_json = "1"
tokio = { version = "1", features = ["macros", "rt", "sync", "time"] }
tracing = "0.1"
