[package]
name = "pokedex"
version = "0.1.0"
edition = "2021"
publish = false

[dependencies]
axum = "=0.8.9"
reqwest = { version = "=0.13.5", default-features = false, features = ["form", "json"] }
serde = { version = "=1.0.229", features = ["derive"] }
tokio = { version = "=1.53.2", features = ["macros", "rt-multi-thread", "net"] }
