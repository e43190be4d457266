[package]
name = "slint_agent_desktop"
version = "0.1.0"
edition = "2021"
publish = false

[dependencies]
chrono = "=0.4.45"
uuid = { version = "=1.29.0", features = ["v7"] }
serde = { version = "=1.0.229", features = ["derive"] }
serde_json = "=1.0.154"
thiserror = "=2.0.21"
tracing = "=0.1.44"
tracing-subscriber = { version = "=0.3.23", features = ["json"] }
directories = "=6.0.0"
fs2 = "=0.4.3"
rusqlite = "=0.40.2"
rusqlite_migration = "=2.6.0"
notify-rust = "4"

[dev-dependencies]
tempfile = "=3.27.0"
