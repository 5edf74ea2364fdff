[package]
name = "brptui"
version = "0.1.0"
edition = "2021"
publish = false

[dependencies]
disqualified = "1"
ratatui = "0.29"
serde_json = "1"
ureq = { version = "2", default-features = false, features = ["json"] }
