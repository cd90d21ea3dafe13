[package]
name = "random_points"
version = "0.1.0"
edition = "2021"
publish = false

[dependencies]
axum = "*"
form_urlencoded = "1"
rand = "0.9"
serde = { version = "1", features = ["derive"] }
tokio = { version = "1", features = ["full"] }
tower-http = { version = "*", features = ["cors"] }
