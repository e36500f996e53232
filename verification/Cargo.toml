[package]
name = "healthcheck"
version = "0.1.0"
edition = "2021"
publish = false

[dependencies]
anyhow = "=1.0.104"
axum = "=0.7.9"
chrono = { version = "=0.4.45", features = ["serde"] }
clap = { version = "=4.6.7", features = ["derive"] }
futures = "=0.3.34"
native-tls = "=0.2.18"
reqwest = { version = "=0.11.27", features = ["json"] }
serde = { version = "=1.0.229", features = ["derive"] }
serde_yaml = "=0.9.34"
# teloxide-core asks for takecell 0.1, and takecell 0.1.2 asks for rustc 1.96;
# this line holds it to the release before, which builds with rustc 1.95.
takecell = "=0.1.1"
teloxide = "=0.12.2"
tokio = { version = "=1.54.1", features = ["full"] }
tokio-native-tls = "=0.3.1"
toml = "=0.8.23"
tower-http = { version = "=0.5.2", features = ["cors", "fs"] }
tracing = "=0.1.44"
tracing-subscriber = "=0.3.23"
x509-parser = "=0.16.0"
