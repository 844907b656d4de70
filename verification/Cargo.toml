[package]
name = "bevy_cli"
version = "0.1.0"
edition = "2021"
publish = false

[dependencies]
semver = "1"
anyhow = "1"
dialoguer = "*"
notify = "*"
toml = "*"
serde = { version = "1", features = ["derive"] }
serde_json = "1"
cargo_metadata = "*"
futures = "0.3"
futures-channel = "0.3"
tokio = { version = "1", features = ["full"] }
tracing = "0.1"
axum = { version = "*", features = ["ws"] }
tower-http = { version = "*", features = ["fs"] }
http = "1"
