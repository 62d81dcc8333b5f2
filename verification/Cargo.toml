[package]
name = "mention_watch"
version = "0.1.0"
edition = "2021"
publish = false

[dependencies]
airtable-flows = "*"
chrono = "*"
dotenv = "*"
github-flows = "*"
serde_json = "*"
slack-flows = "*"
tokio = { version = "1", features = ["macros", "rt"] }
