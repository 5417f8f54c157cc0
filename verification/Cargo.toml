[package]
name = "release-manager"
version = "1.0.0"
edition = "2021"
publish = false

[dependencies]
async-trait = "0.1"
chrono = "0.4"
clap = { version = "4", features = ["derive", "env"] }
colored = "2"
env_logger = "0.11"
regex = "1"
shell-escape = "0.1"
tempfile = "3"
thiserror = "1"
tokio = { version = "1", features = ["fs", "macros", "process", "rt-multi-thread"] }
