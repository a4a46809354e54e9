[package]
name = "vector_core"
version = "0.1.0"
edition = "2021"
publish = false

[dependencies]
indexmap = "*"
http = "*"
serde = { version = "*", features = ["derive"] }
toml = "*"
tracing = "*"
