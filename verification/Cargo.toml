[package]
name = "min_ecs"
version = "0.1.0"
edition = "2021"
publish = false

[dependencies]
proc-macro2 = "=1.0.107"
quote = "=1.0.47"
serde = { version = "=1.0.229", features = ["derive"] }
syn = { version = "=2.0.119", features = ["full", "extra-traits"] }
