[package]
name = "posts_api"
version = "0.1.0"
edition = "2021"
publish = false

[dependencies]
axum = "*"
diesel = { version = "*", features = ["postgres", "r2d2"] }
serde = { version = "*", features = ["derive"] }
tokio = { version = "*", features = ["macros", "rt-multi-thread", "net"] }
