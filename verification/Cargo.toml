[package]
name = "fuel_core"
version = "0.1.0"
edition = "2021"
publish = false

[dependencies]
anyhow = "*"
clap = { version = "*", features = ["derive"] }
dirs = "*"
lazy_static = "*"
tracing = "*"
tracing-subscriber = { version = "*", features = ["env-filter", "fmt", "json"] }
