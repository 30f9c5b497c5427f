[package]
name = "issue_sync"
version = "0.1.0"
edition = "2021"
publish = false

[dependencies]
discord-flows = "*"
flowsnet-platform-sdk = "*"
github-flows = "*"
log = "*"
serde_json = "*"
store-flows = "*"
tokio = { version = "*", features = ["macros", "rt"] }
