[package]
name = "ai_gateway"
version = "0.1.0"
edition = "2021"
publish = false

[dependencies]
derive_more = { version = "=2.1.1", features = ["as_ref", "from"] }
indexmap = "=2.14.2"
nonempty-collections = { version = "=1.4.0", features = ["serde"] }
rust_decimal = "=1.43.0"
rustc-hash = "=2.1.3"
serde = { version = "=1.0.229", features = ["derive"] }
strum = { version = "=0.27.2", features = ["derive"] }
tracing = "=0.1.44"
