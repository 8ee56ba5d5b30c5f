[package]
name = "slotpaste"
version = "0.1.0"
edition = "2021"
publish = false

[dependencies]
serde_json = "1"
tracing = "0.1"
tracing-subscriber = { version = "0.3", features = ["env-filter"] }
ctrlc = "3"
rusqlite = "*"
anyhow = "1"
clap = { version = "4", features = ["derive"] }
which = "*"
clipboard = "*"
core-foundation = "*"
core-graphics = "*"
foreign-types = "*"
macos-accessibility-client = "*"
