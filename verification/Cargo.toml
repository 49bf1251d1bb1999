[package]
name = "github_service"
version = "0.1.0"
edition = "2021"
publish = false

[dependencies]
anyhow = "1"
octocrab = "=0.47.1"
serde = { version = "1", features = ["derive"] }
thiserror = "1"

[dev-dependencies]
http = "1"
