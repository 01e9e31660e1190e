[package]
name = "omzet"
version = "0.1.0"
edition = "2021"
publish = false

[dependencies]
uuid = { version = "*", features = ["v4"] }
globset = "*"
serde = { version = "*", features = ["derive"] }
toml = "*"
thiserror = "*"
tracing = "*"
tracing-subscriber = { version = "*", features = ["env-filter"] }
rusqlite = "*"
rusqlite_migration = "*"
dirs = "*"
run_script = "*"
ez-ffmpeg = "*"
