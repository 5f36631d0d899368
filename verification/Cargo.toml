[package]
name = "holiday_snapshots"
version = "0.1.0"
edition = "2021"
publish = false

[dependencies]
axum = "*"
playwright = "*"
scraper = "*"
serde = { version = "*", features = ["derive"] }
serde_json = "*"
tokio = { version = "*", features = ["full"] }
tower-http = { version = "*", features = ["cors"] }
