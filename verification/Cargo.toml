[package]
name = "hateoas"
version = "0.1.0"
edition = "2021"
publish = false

[dependencies]
serde = { version = "*", features = ["derive"] }
thiserror = "*"
utoipa = "*"
axum = { version = "*", default-features = false }
