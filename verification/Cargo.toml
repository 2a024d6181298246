[package]
name = "telegram_llm"
version = "0.1.0"
edition = "2021"
publish = false

[dependencies]
flowsnet-platform-sdk = "=0.1.6"
llmservice-flows = "=0.5.0"
log = "=0.4.34"
serde_json = "=1.0.154"
store-flows = "=0.3.2"
takecell = "=0.1.1"
tg-flows = "=0.4.0"
tokio = { version = "=1.54.1", features = ["rt", "macros"] }
