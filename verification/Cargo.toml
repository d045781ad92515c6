[package]
name = "directive_bridge"
version = "0.1.0"
edition = "2021"
publish = false

[dependencies]
anyhow = "=1.0.104"
base64 = "=0.22.1"
clap = { version = "=4.6.7", features = ["derive", "env"] }
lambda_runtime = { version = "=1.5.0", features = ["anyhow"] }
log = "=0.4.34"
onetun = "=0.3.10"
pretty_env_logger = "=0.5.0"
reqwest = { version = "=0.11.27", default-features = false }
serde = { version = "=1.0.229", features = ["derive"] }
serde_json = "=1.0.154"
tokio = { version = "=1.54.1", features = ["macros", "rt"] }
