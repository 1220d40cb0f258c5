[package]
name = "task_tracker"
version = "1.0.0"
edition = "2021"

[dependencies]
clap = "4"
serde = { version = "1", features = ["derive"] }
serde_json = "1"
